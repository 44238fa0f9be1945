//! Entropy sampling run by the attested service: four raw bytes from the
//! enclave randomness source, reduced to an inclusive `[min, max]` range.
//! The modulo reduction carries a known bias when the window does not evenly
//! divide 2^32; the protocol accepts that, and the tests flag it rather than
//! assume uniformity.

use vstd::prelude::*;
use vstd::bytes::spec_u32_from_le_bytes;

verus! {

/// The value sampled from raw entropy `raw` for the inclusive range between
/// `min` and `max`, in either argument order: the smaller bound plus `raw`
/// reduced modulo the window size.
pub open spec fn spec_sample(min: u32, max: u32, raw: u32) -> int {
    let lo: int = if min <= max {
        min as int
    } else {
        max as int
    };
    let hi: int = if min <= max {
        max as int
    } else {
        min as int
    };
    if lo == hi {
        lo
    } else {
        lo + (raw as int) % (hi + 1 - lo)
    }
}

/// Relies on `getrandom::getrandom` to fill the buffer from the operating
/// system's entropy source. Nothing is promised of the bytes drawn; if the
/// source itself fails, the worker has no entropy to offer and aborts.
#[verifier::external_body]
fn read_rand() -> (r: [u8; 4])
{
    let mut bytes: [u8; 4] = [0u8; 4];
    getrandom::getrandom(&mut bytes).expect("entropy source failed");
    bytes
}

/// Reduces four raw entropy bytes, read as an unsigned little-endian 32-bit
/// integer, to the inclusive range between `min` and `max`.
pub fn sample_with_entropy(min: u32, max: u32, entropy: &[u8; 4]) -> (r: u32)
    ensures
        r == spec_sample(min, max, spec_u32_from_le_bytes(entropy@)),
{
    let raw: u32 = vstd::bytes::u32_from_le_bytes(entropy.as_slice());
    if min == max {
        return min;
    }
    let lo: u32 = if min <= max {
        min
    } else {
        max
    };
    let hi: u32 = if min <= max {
        max
    } else {
        min
    };
    // The window is computed in 64 bits: with lo == 0 and hi == u32::MAX it
    // is 2^32, one past what u32 holds.
    let window: u64 = (hi as u64) + 1 - (lo as u64);
    let reduced: u64 = (raw as u64) % window;
    proof {
        vstd::arithmetic::div_mod::lemma_mod_bound(raw as int, window as int);
    }
    lo + (reduced as u32)
}

/// Draws entropy and samples the inclusive range between `min` and `max`.
/// Whatever the source returned, the result lies inside the range, and a
/// degenerate range is answered with its single value.
pub fn generate_randomness(min: u32, max: u32) -> (r: u32)
    ensures
        (if min <= max {
            min <= r <= max
        } else {
            max <= r <= min
        }),
        min == max ==> r == min,
        exists|raw: u32| r == spec_sample(min, max, raw),
{
    let entropy = read_rand();
    let r = sample_with_entropy(min, max, &entropy);
    proof {
        let raw = spec_u32_from_le_bytes(entropy@);
        lemma_sample_in_range(min, max, raw);
        assert(r == spec_sample(min, max, raw));
    }
    r
}

/// The sample always lies in the inclusive range, whichever way round the
/// bounds were given.
pub proof fn lemma_sample_in_range(min: u32, max: u32, raw: u32)
    ensures
        min <= max ==> min <= spec_sample(min, max, raw) <= max,
        max <= min ==> max <= spec_sample(min, max, raw) <= min,
{
    let lo: int = if min <= max {
        min as int
    } else {
        max as int
    };
    let hi: int = if min <= max {
        max as int
    } else {
        min as int
    };
    if lo != hi {
        vstd::arithmetic::div_mod::lemma_mod_bound(raw as int, hi + 1 - lo);
    }
}

/// A degenerate range is answered with its single value: for every `min` and
/// every entropy draw, sampling `[min, min]` yields `min`.
pub proof fn lemma_sample_equal_bounds(min: u32, raw: u32)
    ensures
        spec_sample(min, min, raw) == min,
{
}

/// The range is inclusive regardless of argument order: for the same entropy
/// draw, swapping the bounds leaves the sample unchanged.
pub proof fn lemma_sample_symmetric(a: u32, b: u32, raw: u32)
    ensures
        spec_sample(a, b, raw) == spec_sample(b, a, raw),
{
}

} // verus!
