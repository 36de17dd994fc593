//! Fixed-point sample arithmetic.
//!
//! An amplitude of one (full scale) is `SAMPLE_UNIT` units; samples from the
//! hardware boundary land roughly in `[-SAMPLE_UNIT, SAMPLE_UNIT]`, but tape
//! merges may grow values arbitrarily, so every sum saturates instead of
//! clipping or overflowing.

use vstd::prelude::*;

verus! {

/// Number of fixed-point units in a full-scale amplitude of one.
pub const SAMPLE_UNIT: i64 = 1_000_000;

/// Highest tape volume, in volume steps; a volume of `VOLUME_MAX` is unit gain.
pub const VOLUME_MAX: u8 = 100;

/// `x` clipped into the value range of `i64`.
pub open spec fn clip_i64(x: int) -> int {
    if x > i64::MAX as int {
        i64::MAX as int
    } else if x < i64::MIN as int {
        i64::MIN as int
    } else {
        x
    }
}

/// Saturating sum of two samples.
pub open spec fn sat_add_spec(a: int, b: int) -> int {
    clip_i64(a + b)
}

/// Saturating absolute value of a sample.
pub open spec fn sat_abs_spec(a: int) -> int {
    clip_i64(if a < 0 { -a } else { a })
}

/// A sample scaled by `gain / VOLUME_MAX`, rounding the magnitude down
/// (truncation toward zero).
pub open spec fn scaled_spec(sample: int, gain: int) -> int {
    if sample >= 0 {
        (sample * gain) / (VOLUME_MAX as int)
    } else {
        -(((-sample) * gain) / (VOLUME_MAX as int))
    }
}

/// A sample rescaled from `SAMPLE_UNIT` to the 16-bit signed PCM range,
/// truncated toward zero and clamped at the range ends.
pub open spec fn pcm16_spec(sample: int) -> int {
    let v = if sample >= 0 {
        (sample * (i16::MAX as int)) / (SAMPLE_UNIT as int)
    } else {
        -(((-sample) * (i16::MAX as int)) / (SAMPLE_UNIT as int))
    };
    if v > i16::MAX as int {
        i16::MAX as int
    } else if v < i16::MIN as int {
        i16::MIN as int
    } else {
        v
    }
}

pub fn sat_add(a: i64, b: i64) -> (r: i64)
    ensures
        r as int == sat_add_spec(a as int, b as int),
{
    if a >= 0 {
        if b > i64::MAX - a {
            i64::MAX
        } else {
            a + b
        }
    } else {
        if b < i64::MIN - a {
            i64::MIN
        } else {
            a + b
        }
    }
}

pub fn sat_abs(a: i64) -> (r: i64)
    ensures
        r as int == sat_abs_spec(a as int),
{
    if a == i64::MIN {
        i64::MAX
    } else if a < 0 {
        -a
    } else {
        a
    }
}

proof fn lemma_scale_magnitude(mag: int, num: int, den: int)
    requires
        mag >= 0,
        0 <= num <= den,
        den >= 1,
    ensures
        0 <= (mag * num) / den <= mag,
{
    assert(0 <= (mag * num) / den <= mag) by (nonlinear_arith)
        requires
            mag >= 0,
            0 <= num <= den,
            den >= 1,
    ;
}

/// `sample` scaled by `gain / VOLUME_MAX`; never grows a sample's magnitude.
pub fn apply_gain(sample: i64, gain: u8) -> (r: i64)
    requires
        gain <= VOLUME_MAX,
    ensures
        r as int == scaled_spec(sample as int, gain as int),
{
    let mag: u128 = if sample >= 0 {
        sample as u128
    } else {
        (-(sample as i128)) as u128
    };
    proof {
        vstd::arithmetic::mul::lemma_mul_upper_bound(
            mag as int,
            0x8000_0000_0000_0000,
            gain as int,
            VOLUME_MAX as int,
        );
    }
    let s: u128 = mag * (gain as u128) / (VOLUME_MAX as u128);
    proof {
        lemma_scale_magnitude(mag as int, gain as int, VOLUME_MAX as int);
    }
    if sample >= 0 {
        s as i64
    } else if s > i64::MAX as u128 {
        i64::MIN
    } else {
        -(s as i64)
    }
}

/// `sample` rescaled to a 16-bit signed PCM value, clamped at the range ends.
pub fn to_pcm16(sample: i64) -> (r: i16)
    ensures
        r as int == pcm16_spec(sample as int),
{
    let mag: u128 = if sample >= 0 {
        sample as u128
    } else {
        (-(sample as i128)) as u128
    };
    proof {
        vstd::arithmetic::mul::lemma_mul_upper_bound(
            mag as int,
            0x8000_0000_0000_0000,
            i16::MAX as int,
            i16::MAX as int,
        );
    }
    let v: u128 = mag * (i16::MAX as u128) / (SAMPLE_UNIT as u128);
    if sample >= 0 {
        if v > i16::MAX as u128 {
            i16::MAX
        } else {
            v as i16
        }
    } else {
        if v >= 32768 {
            i16::MIN
        } else {
            -(v as i16)
        }
    }
}

} // verus!
