//! Signed 16-bit little-endian PCM: the byte form in which a capture stream
//! delivers samples and a playback stream takes them.
use vstd::prelude::*;

verus! {

/// The sample that a low byte and a high byte encode, in two's complement.
pub open spec fn sample_of(lo: u8, hi: u8) -> int {
    let u = lo + 256 * hi;
    if u >= 0x8000 {
        u - 0x10000
    } else {
        u
    }
}

/// The samples that a byte string encodes, two bytes each; a trailing odd
/// byte encodes nothing.
pub open spec fn samples_of(bytes: Seq<u8>) -> Seq<i16> {
    Seq::new(bytes.len() / 2, |i: int| sample_of(bytes[2 * i], bytes[2 * i + 1]) as i16)
}

/// The low byte of a sample's two's complement form.
pub open spec fn low_byte(s: i16) -> u8 {
    (if s < 0 {
        s + 0x10000
    } else {
        s as int
    } % 256) as u8
}

/// The high byte of a sample's two's complement form.
pub open spec fn high_byte(s: i16) -> u8 {
    (if s < 0 {
        s + 0x10000
    } else {
        s as int
    } / 256) as u8
}

/// The bytes of a sample string, low byte first.
pub open spec fn bytes_of(samples: Seq<i16>) -> Seq<u8> {
    Seq::new(
        2 * samples.len(),
        |k: int|
            if k % 2 == 0 {
                low_byte(samples[k / 2])
            } else {
                high_byte(samples[k / 2])
            },
    )
}

pub fn decode_s16le(bytes: &[u8]) -> (r: Vec<i16>)
    ensures
        r@ == samples_of(bytes@),
{
    let len = bytes.len();
    let n = len / 2;
    let mut r: Vec<i16> = Vec::new();
    let mut i: usize = 0;
    while i < n
        invariant
            len == bytes@.len(),
            n == len / 2,
            2 * n <= len,
            i <= n,
            r@ == samples_of(bytes@).take(i as int),
        decreases n - i,
    {
        let lo = bytes[2 * i];
        let hi = bytes[2 * i + 1];
        let u: u32 = lo as u32 + 256 * hi as u32;
        let s: i16 = if u >= 0x8000 {
            (u as i32 - 0x10000) as i16
        } else {
            u as i16
        };
        r.push(s);
        i += 1;
        assert(r@ =~= samples_of(bytes@).take(i as int));
    }
    assert(r@ =~= samples_of(bytes@));
    r
}

pub fn encode_s16le(samples: &[i16]) -> (r: Vec<u8>)
    requires
        2 * samples@.len() <= usize::MAX,
    ensures
        r@ == bytes_of(samples@),
{
    let mut r: Vec<u8> = Vec::new();
    let mut i: usize = 0;
    while i < samples.len()
        invariant
            i <= samples@.len(),
            2 * samples@.len() <= usize::MAX,
            r@ == bytes_of(samples@).take(2 * i),
        decreases samples@.len() - i,
    {
        let s = samples[i];
        let u: u32 = if s < 0 {
            (s as i32 + 0x10000) as u32
        } else {
            s as u32
        };
        r.push((u % 256) as u8);
        r.push((u / 256) as u8);
        proof {
            let b = bytes_of(samples@);
            assert(b[2 * i] == low_byte(s));
            assert(b[2 * i + 1] == high_byte(s));
        }
        i += 1;
        assert(r@ =~= bytes_of(samples@).take(2 * i));
    }
    assert(r@ =~= bytes_of(samples@));
    r
}

/// Encoding samples and decoding the bytes gives the samples back.
pub proof fn lemma_decode_encode(samples: Seq<i16>)
    ensures
        samples_of(bytes_of(samples)) == samples,
{
    let b = bytes_of(samples);
    assert forall|i: int| 0 <= i < samples.len() implies #[trigger] samples_of(b)[i] == samples[i] by {
        let s = samples[i];
        assert(b[2 * i] == low_byte(s));
        assert(b[2 * i + 1] == high_byte(s));
    }
    assert(samples_of(b) =~= samples);
}

/// Decoding a byte string of even length and encoding the samples gives
/// the bytes back.
pub proof fn lemma_encode_decode(bytes: Seq<u8>)
    requires
        bytes.len() % 2 == 0,
    ensures
        bytes_of(samples_of(bytes)) == bytes,
{
    let s = samples_of(bytes);
    assert forall|k: int| 0 <= k < bytes.len() implies #[trigger] bytes_of(s)[k] == bytes[k] by {
        let i = k / 2;
        assert(0 <= i < s.len());
        let lo = bytes[2 * i];
        let hi = bytes[2 * i + 1];
        assert(s[i] == sample_of(lo, hi) as i16);
    }
    assert(bytes_of(s) =~= bytes);
}

} // verus!
