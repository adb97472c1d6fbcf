//! Cutoff frequencies of the two filter stages, their validation and the
//! clamping of requested cutoffs into the usable band.
use vstd::prelude::*;

verus! {

/// The lowest cutoff that a control request is clamped to, in hertz.
pub const DEFAULT_MIN_FREQ: u32 = 10;

/// How far below the Nyquist frequency the highest usable cutoff lies, in hertz.
pub const NYQUIST_MARGIN: u32 = 1000;

/// The response of a second-order filter stage.
#[derive(Clone, Copy, Debug, PartialEq, Eq, Structural)]
pub enum FilterKind {
    LowPass,
    HighPass,
}

/// Why a cutoff was not accepted.
#[derive(Clone, Copy, Debug, PartialEq, Eq, Structural)]
pub enum FilterError {
    /// The cutoff is zero, or not below half the sampling rate.
    InvalidFrequency,
}

/// A cutoff is usable at a sampling rate when it lies strictly between zero
/// and the Nyquist frequency.
pub open spec fn valid_cutoff(cutoff: int, sample_rate: int) -> bool {
    0 < cutoff && 2 * cutoff < sample_rate
}

pub open spec fn clamp(x: int, lo: int, hi: int) -> int {
    if x < lo {
        lo
    } else if x > hi {
        hi
    } else {
        x
    }
}

/// The highest cutoff offered to control requests: half the sampling rate
/// less a fixed margin, or zero where the rate is too low for that.
pub open spec fn max_freq_of(sample_rate: int) -> int {
    if sample_rate / 2 >= NYQUIST_MARGIN {
        sample_rate / 2 - NYQUIST_MARGIN
    } else {
        0
    }
}

pub fn get_max_freq(sample_rate: u32) -> (r: u32)
    ensures
        r == max_freq_of(sample_rate as int),
{
    let half: u32 = sample_rate / 2;
    if half >= NYQUIST_MARGIN {
        half - NYQUIST_MARGIN
    } else {
        0
    }
}

/// The parameters from which one biquad stage takes its coefficients: its
/// kind, its cutoff and the sampling rate, in hertz. The quality factor is
/// the Butterworth one throughout.
#[derive(Clone, Copy, Debug, PartialEq, Eq, Structural)]
pub struct FilterDesign {
    pub kind: FilterKind,
    pub cutoff: u32,
    pub sample_rate: u32,
}

impl FilterDesign {
    /// The design after a retune request: the requested one where its cutoff
    /// is valid, else the design unchanged.
    pub open spec fn retuned(self, kind: FilterKind, cutoff: u32, sample_rate: u32) -> FilterDesign {
        if valid_cutoff(cutoff as int, sample_rate as int) {
            FilterDesign { kind, cutoff, sample_rate }
        } else {
            self
        }
    }

    pub fn new(kind: FilterKind, cutoff: u32, sample_rate: u32) -> (r: Result<FilterDesign, FilterError>)
        ensures
            r is Ok <==> valid_cutoff(cutoff as int, sample_rate as int),
            r is Ok ==> r->Ok_0 == (FilterDesign { kind, cutoff, sample_rate }),
            r is Err ==> r->Err_0 == FilterError::InvalidFrequency,
    {
        if cutoff > 0 && (cutoff as u64) * 2 < sample_rate as u64 {
            Ok(FilterDesign { kind, cutoff, sample_rate })
        } else {
            Err(FilterError::InvalidFrequency)
        }
    }

    /// Replaces the parameters by the requested ones, with the same validation
    /// as `new`; an invalid request leaves the design as it was.
    pub fn retune(&mut self, kind: FilterKind, cutoff: u32, sample_rate: u32) -> (r: Result<(), FilterError>)
        ensures
            *final(self) == old(self).retuned(kind, cutoff, sample_rate),
            r is Ok <==> valid_cutoff(cutoff as int, sample_rate as int),
            r is Err ==> r->Err_0 == FilterError::InvalidFrequency,
    {
        match FilterDesign::new(kind, cutoff, sample_rate) {
            Ok(d) => {
                *self = d;
                Ok(())
            },
            Err(e) => Err(e),
        }
    }
}

/// Retuning twice with the same parameters leaves the same design as
/// retuning once.
pub proof fn lemma_retune_idempotent(d: FilterDesign, kind: FilterKind, cutoff: u32, sample_rate: u32)
    ensures
        d.retuned(kind, cutoff, sample_rate).retuned(kind, cutoff, sample_rate) == d.retuned(
            kind,
            cutoff,
            sample_rate,
        ),
{
}

/// The tuning of a low-pass stage followed by a high-pass stage at one
/// sampling rate. Control requests are clamped into the band
/// `[min_freq, max_freq]`, which lies strictly between zero and the Nyquist
/// frequency, so both stages always hold a valid design.
pub struct FilterChain {
    low_pass: FilterDesign,
    high_pass: FilterDesign,
    min_freq: u32,
    max_freq: u32,
}

impl FilterChain {
    pub closed spec fn spec_stage(self, target: FilterKind) -> FilterDesign {
        match target {
            FilterKind::LowPass => self.low_pass,
            FilterKind::HighPass => self.high_pass,
        }
    }

    pub closed spec fn spec_min_freq(self) -> int {
        self.min_freq as int
    }

    pub closed spec fn spec_max_freq(self) -> int {
        self.max_freq as int
    }

    pub closed spec fn spec_sample_rate(self) -> int {
        self.low_pass.sample_rate as int
    }

    /// The cutoff of the stage of the given kind.
    pub open spec fn spec_cutoff(self, target: FilterKind) -> int {
        self.spec_stage(target).cutoff as int
    }

    #[verifier::type_invariant]
    spec fn inv(self) -> bool {
        &&& self.low_pass.kind == FilterKind::LowPass
        &&& self.high_pass.kind == FilterKind::HighPass
        &&& self.high_pass.sample_rate == self.low_pass.sample_rate
        &&& self.min_freq <= self.max_freq
        &&& valid_cutoff(self.min_freq as int, self.low_pass.sample_rate as int)
        &&& valid_cutoff(self.max_freq as int, self.low_pass.sample_rate as int)
        &&& self.min_freq <= self.low_pass.cutoff <= self.max_freq
        &&& self.min_freq <= self.high_pass.cutoff <= self.max_freq
    }

    /// The band that control requests are clamped to is usable at this
    /// sampling rate.
    pub open spec fn band_ok(sample_rate: int) -> bool {
        DEFAULT_MIN_FREQ <= max_freq_of(sample_rate)
    }

    /// A chain at the given sampling rate that lets the whole band through:
    /// the low-pass cutoff at the top of the band, the high-pass cutoff at its
    /// bottom. Fails where the sampling rate leaves no band above the floor.
    pub fn new(sample_rate: u32) -> (r: Result<FilterChain, FilterError>)
        ensures
            r is Ok <==> Self::band_ok(sample_rate as int),
            r is Err ==> r->Err_0 == FilterError::InvalidFrequency,
            r matches Ok(c) ==> {
                &&& c.spec_sample_rate() == sample_rate
                &&& c.spec_min_freq() == DEFAULT_MIN_FREQ
                &&& c.spec_max_freq() == max_freq_of(sample_rate as int)
                &&& c.spec_stage(FilterKind::LowPass) == (FilterDesign {
                    kind: FilterKind::LowPass,
                    cutoff: max_freq_of(sample_rate as int) as u32,
                    sample_rate,
                })
                &&& c.spec_stage(FilterKind::HighPass) == (FilterDesign {
                    kind: FilterKind::HighPass,
                    cutoff: DEFAULT_MIN_FREQ,
                    sample_rate,
                })
            },
    {
        let max_freq = get_max_freq(sample_rate);
        if max_freq < DEFAULT_MIN_FREQ {
            return Err(FilterError::InvalidFrequency);
        }
        let low_pass = FilterDesign { kind: FilterKind::LowPass, cutoff: max_freq, sample_rate };
        let high_pass = FilterDesign {
            kind: FilterKind::HighPass,
            cutoff: DEFAULT_MIN_FREQ,
            sample_rate,
        };
        Ok(FilterChain { low_pass, high_pass, min_freq: DEFAULT_MIN_FREQ, max_freq })
    }

    /// The design of the stage of the given kind.
    pub fn stage(&self, target: FilterKind) -> (r: FilterDesign)
        ensures
            r == self.spec_stage(target),
    {
        match target {
            FilterKind::LowPass => self.low_pass,
            FilterKind::HighPass => self.high_pass,
        }
    }

    pub fn sample_rate(&self) -> (r: u32)
        ensures
            r == self.spec_sample_rate(),
    {
        self.low_pass.sample_rate
    }

    pub fn min_freq(&self) -> (r: u32)
        ensures
            r == self.spec_min_freq(),
    {
        self.min_freq
    }

    pub fn max_freq(&self) -> (r: u32)
        ensures
            r == self.spec_max_freq(),
    {
        self.max_freq
    }

    /// The cutoff that a request for `freq` hertz is brought to.
    pub fn clamp_cutoff(&self, freq: i128) -> (r: u32)
        ensures
            r == clamp(freq as int, self.spec_min_freq(), self.spec_max_freq()),
    {
        proof {
            use_type_invariant(&*self);
        }
        if freq < self.min_freq as i128 {
            self.min_freq
        } else if freq > self.max_freq as i128 {
            self.max_freq
        } else {
            freq as u32
        }
    }

    /// Retunes exactly the stage of the given kind to `freq` hertz, clamped
    /// into the band, and returns the cutoff applied. The other stage is left
    /// as it was.
    pub fn set_cutoff(&mut self, target: FilterKind, freq: i64) -> (r: u32)
        ensures
            r == clamp(freq as int, old(self).spec_min_freq(), old(self).spec_max_freq()),
            final(self).spec_stage(target) == (FilterDesign {
                kind: target,
                cutoff: r,
                sample_rate: old(self).spec_stage(target).sample_rate,
            }),
            final(self).spec_stage(other_kind(target)) == old(self).spec_stage(other_kind(target)),
            final(self).spec_min_freq() == old(self).spec_min_freq(),
            final(self).spec_max_freq() == old(self).spec_max_freq(),
            final(self).spec_sample_rate() == old(self).spec_sample_rate(),
    {
        proof {
            use_type_invariant(&*self);
        }
        let cutoff = self.clamp_cutoff(freq as i128);
        let sample_rate = self.low_pass.sample_rate;
        let design = FilterDesign { kind: target, cutoff, sample_rate };
        match target {
            FilterKind::LowPass => self.low_pass = design,
            FilterKind::HighPass => self.high_pass = design,
        }
        cutoff
    }

    /// Moves the cutoff of one stage by `delta` hertz, clamped into the band.
    pub fn adjust_cutoff(&mut self, target: FilterKind, delta: i64) -> (r: u32)
        ensures
            r == clamp(
                old(self).spec_cutoff(target) + delta,
                old(self).spec_min_freq(),
                old(self).spec_max_freq(),
            ),
            final(self).spec_stage(target) == (FilterDesign {
                kind: target,
                cutoff: r,
                sample_rate: old(self).spec_stage(target).sample_rate,
            }),
            final(self).spec_stage(other_kind(target)) == old(self).spec_stage(other_kind(target)),
            final(self).spec_min_freq() == old(self).spec_min_freq(),
            final(self).spec_max_freq() == old(self).spec_max_freq(),
            final(self).spec_sample_rate() == old(self).spec_sample_rate(),
    {
        proof {
            use_type_invariant(&*self);
        }
        let current = self.stage(target).cutoff;
        let cutoff = self.clamp_cutoff(current as i128 + delta as i128);
        self.set_cutoff(target, cutoff as i64)
    }

    /// Brings one stage back to the edge of the band where it lets everything
    /// through: the low-pass to the top, the high-pass to the bottom.
    pub fn reset_cutoff(&mut self, target: FilterKind) -> (r: u32)
        ensures
            r == match target {
                FilterKind::LowPass => old(self).spec_max_freq(),
                FilterKind::HighPass => old(self).spec_min_freq(),
            },
            final(self).spec_stage(target) == (FilterDesign {
                kind: target,
                cutoff: r,
                sample_rate: old(self).spec_stage(target).sample_rate,
            }),
            final(self).spec_stage(other_kind(target)) == old(self).spec_stage(other_kind(target)),
            final(self).spec_min_freq() == old(self).spec_min_freq(),
            final(self).spec_max_freq() == old(self).spec_max_freq(),
            final(self).spec_sample_rate() == old(self).spec_sample_rate(),
    {
        proof {
            use_type_invariant(&*self);
        }
        let freq = match target {
            FilterKind::LowPass => self.max_freq,
            FilterKind::HighPass => self.min_freq,
        };
        self.set_cutoff(target, freq as i64)
    }
}

pub open spec fn other_kind(k: FilterKind) -> FilterKind {
    match k {
        FilterKind::LowPass => FilterKind::HighPass,
        FilterKind::HighPass => FilterKind::LowPass,
    }
}

} // verus!
