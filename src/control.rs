//! The control commands that retune the filter stages or end a session,
//! and their text form.
//!
//! A command is one trimmed line: `q` ends the session; `l` or `h` selects
//! the low-pass or the high-pass stage, followed by nothing (back to the
//! edge of the band), by a cutoff in hertz (`l2000`), or by a signed step
//! in hertz (`h+50`, `l-300`).
use vstd::prelude::*;
use crate::tuning::FilterKind;

verus! {

/// The bytes of the command syntax.
pub const ZERO: u8 = 0x30;
pub const NINE: u8 = 0x39;
pub const PLUS: u8 = 0x2b;
pub const MINUS: u8 = 0x2d;
pub const LOW: u8 = 0x6c;
pub const HIGH: u8 = 0x68;
pub const QUIT: u8 = 0x71;

/// How a command moves the cutoff of its stage.
#[derive(Clone, Copy, Debug, PartialEq, Eq, Structural)]
pub enum CutoffRequest {
    /// Back to the edge of the band where the stage lets everything through.
    Reset,
    /// To the given cutoff.
    To(u32),
    /// By the given step.
    Shift(i64),
}

#[derive(Clone, Copy, Debug, PartialEq, Eq, Structural)]
pub enum Command {
    Cutoff(FilterKind, CutoffRequest),
    Quit,
}

pub open spec fn is_digit(b: u8) -> bool {
    ZERO <= b <= NINE
}

/// The value of a string of decimal digits, most significant first.
pub open spec fn decimal_value(s: Seq<u8>) -> nat
    decreases s.len(),
{
    if s.len() == 0 {
        0
    } else {
        decimal_value(s.drop_last()) * 10 + (s.last() - ZERO) as nat
    }
}

/// A non-empty string of decimal digits whose value fits in a `u32`.
pub open spec fn is_number(s: Seq<u8>) -> bool {
    &&& 0 < s.len()
    &&& forall|i: int| 0 <= i < s.len() ==> is_digit(#[trigger] s[i])
    &&& decimal_value(s) <= u32::MAX
}

pub open spec fn stage_of(b: u8) -> Option<FilterKind> {
    if b == LOW {
        Some(FilterKind::LowPass)
    } else if b == HIGH {
        Some(FilterKind::HighPass)
    } else {
        None
    }
}

/// The request written after the stage letter.
pub open spec fn request_of(rest: Seq<u8>) -> Option<CutoffRequest> {
    if rest.len() == 0 {
        Some(CutoffRequest::Reset)
    } else if rest[0] == PLUS {
        if is_number(rest.drop_first()) {
            Some(CutoffRequest::Shift(decimal_value(rest.drop_first()) as i64))
        } else {
            None
        }
    } else if rest[0] == MINUS {
        if is_number(rest.drop_first()) {
            Some(CutoffRequest::Shift(-decimal_value(rest.drop_first()) as i64))
        } else {
            None
        }
    } else if is_number(rest) {
        Some(CutoffRequest::To(decimal_value(rest) as u32))
    } else {
        None
    }
}

/// The command that a line spells, if any.
pub open spec fn command_of(line: Seq<u8>) -> Option<Command> {
    if line == seq![QUIT] {
        Some(Command::Quit)
    } else if line.len() == 0 {
        None
    } else {
        match (stage_of(line[0]), request_of(line.drop_first())) {
            (Some(k), Some(req)) => Some(Command::Cutoff(k, req)),
            _ => None,
        }
    }
}

proof fn lemma_decimal_value_prefix(s: Seq<u8>, i: int)
    requires
        0 <= i <= s.len(),
    ensures
        decimal_value(s.subrange(0, i)) <= decimal_value(s),
    decreases s.len() - i,
{
    if i < s.len() {
        lemma_decimal_value_prefix(s, i + 1);
        let p = s.subrange(0, i + 1);
        assert(p.drop_last() =~= s.subrange(0, i));
    } else {
        assert(s.subrange(0, i) =~= s);
    }
}

/// Reads the decimal number that fills `s` from `start` to its end.
fn parse_number(s: &[u8], start: usize) -> (r: Option<u32>)
    requires
        start <= s@.len(),
    ensures
        r == (if is_number(s@.subrange(start as int, s@.len() as int)) {
            Some(decimal_value(s@.subrange(start as int, s@.len() as int)) as u32)
        } else {
            None
        }),
{
    let ghost digits = s@.subrange(start as int, s@.len() as int);
    if start == s.len() {
        return None;
    }
    let mut value: u64 = 0;
    let mut i: usize = start;
    while i < s.len()
        invariant
            start <= i <= s@.len(),
            digits == s@.subrange(start as int, s@.len() as int),
            forall|k: int| start <= k < i ==> is_digit(#[trigger] s@[k]),
            value == decimal_value(s@.subrange(start as int, i as int)),
            value <= u32::MAX,
        decreases s@.len() - i,
    {
        let b = s[i];
        let ghost prefix = s@.subrange(start as int, i as int);
        let ghost next = s@.subrange(start as int, i + 1);
        assert(next.drop_last() =~= prefix);
        if b < ZERO || b > NINE {
            assert(!is_digit(digits[i - start]));
            return None;
        }
        value = value * 10 + (b - ZERO) as u64;
        if value > u32::MAX as u64 {
            proof {
                assert(digits.subrange(0, i - start + 1) =~= next);
                lemma_decimal_value_prefix(digits, i - start + 1);
            }
            return None;
        }
        i += 1;
    }
    assert(s@.subrange(start as int, i as int) =~= digits);
    assert forall|k: int| 0 <= k < digits.len() implies is_digit(#[trigger] digits[k]) by {
        assert(digits[k] == s@[start + k]);
    }
    Some(value as u32)
}

/// Reads a control command from one trimmed line; `None` where the line
/// spells none.
pub fn parse_command(line: &[u8]) -> (r: Option<Command>)
    ensures
        r == command_of(line@),
{
    let n = line.len();
    if n == 0 {
        return None;
    }
    if n == 1 && line[0] == QUIT {
        assert(line@ =~= seq![QUIT]);
        return Some(Command::Quit);
    }
    assert(line@ != seq![QUIT]) by {
        if line@ == seq![QUIT] {
            assert(line@.len() == 1 && line@[0] == QUIT);
        }
    }
    let kind = if line[0] == LOW {
        FilterKind::LowPass
    } else if line[0] == HIGH {
        FilterKind::HighPass
    } else {
        return None;
    };
    let ghost rest = line@.drop_first();
    let req = if n == 1 {
        CutoffRequest::Reset
    } else if line[1] == PLUS || line[1] == MINUS {
        assert(rest.drop_first() =~= line@.subrange(2, n as int));
        match parse_number(line, 2) {
            Some(v) => {
                if line[1] == PLUS {
                    CutoffRequest::Shift(v as i64)
                } else {
                    CutoffRequest::Shift(-(v as i64))
                }
            },
            None => {
                return None;
            },
        }
    } else {
        assert(rest =~= line@.subrange(1, n as int));
        match parse_number(line, 1) {
            Some(v) => CutoffRequest::To(v),
            None => {
                return None;
            },
        }
    };
    Some(Command::Cutoff(kind, req))
}

} // verus!
