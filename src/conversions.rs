use vstd::prelude::*;

use crate::can::{decoded, DecodeError, Frame, RawMessage};

verus! {

/// Converts a position in percent into an erpm value.
pub trait IntoErpm {
    fn into_erpm(self) -> i32;
}

/// Converts a reading into a percentage of a band.
pub trait IntoPercentage {
    fn into_percentage(self, min: u32, max: u32, error: u32) -> Result<Percentage, RangeError>;
}

/// Reads a received frame as a message.
pub trait IntoCANMessage {
    fn into_can_message(self) -> Result<RawMessage, DecodeError>;
}

impl IntoCANMessage for Frame {
    fn into_can_message(self) -> (r: Result<RawMessage, DecodeError>)
        ensures
            r is Err <==> decoded(self@) is None,
            r is Err ==> r == Err::<RawMessage, DecodeError>(DecodeError::Length),
            r matches Ok(m) ==> decoded(self@) == Some(m@),
    {
        self.decode()
    }
}

/// A percentage held exactly as the fraction `num / den`, between 0 and 100.
#[derive(Clone, Copy, Debug, PartialEq, Eq)]
pub struct Percentage {
    num: u64,
    den: u64,
}

impl View for Percentage {
    type V = (int, int);

    /// The fraction as (numerator, denominator).
    closed spec fn view(&self) -> (int, int) {
        (self.num as int, self.den as int)
    }
}

impl Percentage {
    #[verifier::type_invariant]
    spec fn inv(self) -> bool {
        &&& 0 < self.den <= 0xFFFF_FFFF
        &&& self.num <= 100 * self.den
    }

    /// The numerator of the fraction.
    pub fn num(&self) -> (r: u64)
        ensures
            r as int == self@.0,
            r as int <= 100 * self@.1,
    {
        proof {
            use_type_invariant(self);
        }
        self.num
    }

    /// The denominator of the fraction, never zero.
    pub fn den(&self) -> (r: u64)
        ensures
            r as int == self@.1,
            0 < r <= 0xFFFF_FFFF,
    {
        proof {
            use_type_invariant(self);
        }
        self.den
    }
}

/// Why a reading could not be converted into a percentage.
#[derive(Clone, Copy, Debug, PartialEq, Eq, Structural)]
pub enum RangeError {
    /// The band is empty: its minimum equals its maximum.
    EmptyBand,
    /// The reading lies below the band by more than the tolerance.
    Below,
    /// The reading lies above the band by more than the tolerance.
    Above,
}

/// Where a reading lies in a band, as the fraction `(v - min) * 100 / (max - min)`
/// with a non-negative denominator.
pub open spec fn band_fraction(v: int, min: int, max: int) -> (int, int) {
    if max >= min {
        ((v - min) * 100, max - min)
    } else {
        ((min - v) * 100, min - max)
    }
}

/// The percentage a reading stands for in the band from `min` (0) to `max`
/// (100), given as a fraction: out of the band by more than `error` points
/// is an error, out of it by less is clamped to 0 or 100.
pub open spec fn percentage_of(v: int, min: int, max: int, error: int) -> Result<(int, int), RangeError> {
    let (n, d) = band_fraction(v, min, max);
    if d == 0 {
        Err(RangeError::EmptyBand)
    } else if n < -error * d {
        Err(RangeError::Below)
    } else if n > (100 + error) * d {
        Err(RangeError::Above)
    } else if n < 0 {
        Ok((0, d))
    } else if n > 100 * d {
        Ok((100 * d, d))
    } else {
        Ok((n, d))
    }
}

/// The value of a result, with each percentage as its fraction.
pub open spec fn result_view(r: Result<Percentage, RangeError>) -> Result<(int, int), RangeError> {
    match r {
        Ok(p) => Ok(p@),
        Err(e) => Err(e),
    }
}

impl IntoPercentage for u16 {
    fn into_percentage(self, min: u32, max: u32, error: u32) -> (r: Result<Percentage, RangeError>)
        ensures
            result_view(r) == percentage_of(self as int, min as int, max as int, error as int),
    {
        let (n, d): (i128, i128) = if max >= min {
            ((self as i128 - min as i128) * 100, max as i128 - min as i128)
        } else {
            ((min as i128 - self as i128) * 100, min as i128 - max as i128)
        };
        let e = error as i128;
        assert(0 <= e * d <= 0xFFFF_FFFFi128 * 0xFFFF_FFFFi128) by (nonlinear_arith)
            requires
                0 <= e <= 0xFFFF_FFFFi128,
                0 <= d <= 0xFFFF_FFFFi128,
        ;
        assert(-e * d == -(e * d)) by (nonlinear_arith);
        if d == 0 {
            Err(RangeError::EmptyBand)
        } else if n < -(e * d) {
            Err(RangeError::Below)
        } else if n > 100 * d + e * d {
            assert((100 + e) * d == 100 * d + e * d) by (nonlinear_arith);
            Err(RangeError::Above)
        } else {
            assert((100 + e) * d == 100 * d + e * d) by (nonlinear_arith);
            if n < 0 {
                Ok(Percentage { num: 0, den: d as u64 })
            } else if n > 100 * d {
                Ok(Percentage { num: (100 * d) as u64, den: d as u64 })
            } else {
                Ok(Percentage { num: n as u64, den: d as u64 })
            }
        }
    }
}

/// The erpm value a percentage asks for: none below 20 percent, else twice
/// the percentage, rounded down.
pub open spec fn erpm_of(num: int, den: int) -> int {
    if num < 20 * den {
        0
    } else {
        (2 * num) / den
    }
}

impl IntoErpm for Percentage {
    fn into_erpm(self) -> (r: i32)
        ensures
            r as int == erpm_of(self@.0, self@.1),
    {
        proof {
            use_type_invariant(&self);
        }
        if self.num < 20 * self.den {
            0
        } else {
            proof {
                let (a, b) = (self.num as int, self.den as int);
                assert((2 * a) / b <= 200) by (nonlinear_arith)
                    requires
                        b > 0,
                        0 <= a <= 100 * b,
                ;
            }
            (2 * self.num / self.den) as i32
        }
    }
}

/// A reading at the band's minimum is 0 percent and one at its maximum is
/// 100 percent; a reading out of the band by more than the tolerance is an
/// error; one out of it by less is clamped to 0 or 100.
pub proof fn lemma_percentage_bounds(v: int, min: int, max: int, error: int)
    requires
        min != max,
        error >= 0,
    ensures
        v == min ==> (percentage_of(v, min, max, error) matches Ok((n, d)) && n == 0),
        v == max ==> (percentage_of(v, min, max, error) matches Ok((n, d)) && n == 100 * d),
        band_fraction(v, min, max).0 < -error * band_fraction(v, min, max).1
            ==> percentage_of(v, min, max, error) == Err::<(int, int), RangeError>(RangeError::Below),
        band_fraction(v, min, max).0 > (100 + error) * band_fraction(v, min, max).1
            ==> percentage_of(v, min, max, error) == Err::<(int, int), RangeError>(RangeError::Above),
        percentage_of(v, min, max, error) matches Ok((n, d)) ==> 0 <= n <= 100 * d,
{
    let (n, d) = band_fraction(v, min, max);
    assert(d > 0);
    assert(-error * d <= 0) by (nonlinear_arith)
        requires
            error >= 0,
            d > 0,
    ;
    assert((100 + error) * d >= 100 * d) by (nonlinear_arith)
        requires
            error >= 0,
            d > 0,
    ;
    if v == max {
        assert(n == 100 * d) by (nonlinear_arith)
            requires
                n == band_fraction(v, min, max).0,
                d == band_fraction(v, min, max).1,
                v == max,
        ;
    }
}

} // verus!
