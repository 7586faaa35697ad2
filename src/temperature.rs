//! Temperatures tagged with their unit, held in thousandths of a degree.
use vstd::prelude::*;

verus! {

/// Millidegrees between 0 °C and 0 K.
pub const KELVIN_OFFSET: i64 = 273150;

/// Millidegrees Fahrenheit at 0 °C.
pub const FAHRENHEIT_OFFSET: i64 = 32000;

/// A single reading, tagged with its unit. The magnitude is in thousandths
/// of a degree (millidegrees), which holds every value the converter can
/// report, and every Fahrenheit or Kelvin value derived from one, exactly.
#[derive(Debug, Clone, Copy, PartialEq, Eq, Structural)]
pub enum Temperature {
    Celsius(i64),
    Fahrenheit(i64),
    Kelvin(i64),
}

/// `n / d` rounded to the nearest integer, halves rounded up (`d > 0`).
pub open spec fn round_div(n: int, d: int) -> int {
    (2 * n + d) / (2 * d)
}

/// `F = C * 9/5 + 32`, in millidegrees, rounded to the nearest millidegree.
pub open spec fn fahrenheit_of_celsius(c: int) -> int {
    round_div(9 * c, 5) + FAHRENHEIT_OFFSET
}

/// `C = (F - 32) * 5/9`, in millidegrees, rounded to the nearest millidegree.
pub open spec fn celsius_of_fahrenheit(f: int) -> int {
    round_div(5 * (f - FAHRENHEIT_OFFSET), 9)
}

/// `K = C + 273.15`, in millidegrees.
pub open spec fn kelvin_of_celsius(c: int) -> int {
    c + KELVIN_OFFSET
}

/// `C = K - 273.15`, in millidegrees.
pub open spec fn celsius_of_kelvin(k: int) -> int {
    k - KELVIN_OFFSET
}

/// True when `v` can be held in an `i64`.
pub open spec fn fits_i64(v: int) -> bool {
    i64::MIN <= v <= i64::MAX
}

impl Temperature {
    /// The magnitude, in millidegrees of the temperature's own unit.
    pub open spec fn magnitude(self) -> int {
        match self {
            Temperature::Celsius(v) => v as int,
            Temperature::Fahrenheit(v) => v as int,
            Temperature::Kelvin(v) => v as int,
        }
    }

    /// The temperature in millidegrees Celsius.
    pub open spec fn celsius(self) -> int {
        match self {
            Temperature::Celsius(c) => c as int,
            Temperature::Fahrenheit(f) => celsius_of_fahrenheit(f as int),
            Temperature::Kelvin(k) => celsius_of_kelvin(k as int),
        }
    }

    /// The temperature in millidegrees Fahrenheit; a Fahrenheit value is kept as it is.
    pub open spec fn fahrenheit(self) -> int {
        match self {
            Temperature::Fahrenheit(f) => f as int,
            _ => fahrenheit_of_celsius(self.celsius()),
        }
    }

    /// The temperature in millidegrees Kelvin; a Kelvin value is kept as it is.
    pub open spec fn kelvin(self) -> int {
        match self {
            Temperature::Kelvin(k) => k as int,
            _ => kelvin_of_celsius(self.celsius()),
        }
    }

    /// The magnitude in millidegrees of the temperature's own unit.
    pub fn millidegrees(&self) -> (r: i64)
        ensures
            r == self.magnitude(),
    {
        match *self {
            Temperature::Celsius(v) => v,
            Temperature::Fahrenheit(v) => v,
            Temperature::Kelvin(v) => v,
        }
    }

    /// The same temperature in Celsius.
    pub fn to_celsius(self) -> (r: Temperature)
        requires
            fits_i64(self.celsius()),
        ensures
            r == Temperature::Celsius(self.celsius() as i64),
    {
        match self {
            Temperature::Celsius(c) => Temperature::Celsius(c),
            Temperature::Fahrenheit(f) => {
                let n: i128 = 10 * (f as i128 - FAHRENHEIT_OFFSET as i128) + 9;
                let q: i128 = n.checked_div_euclid(18).unwrap();
                Temperature::Celsius(q as i64)
            },
            Temperature::Kelvin(k) => Temperature::Celsius(k - KELVIN_OFFSET),
        }
    }

    /// The same temperature in Fahrenheit: `F = C * 9/5 + 32`.
    pub fn to_fahrenheit(self) -> (r: Temperature)
        requires
            self is Fahrenheit || (fits_i64(self.celsius()) && fits_i64(self.fahrenheit())),
        ensures
            r == Temperature::Fahrenheit(self.fahrenheit() as i64),
    {
        match self {
            Temperature::Fahrenheit(f) => Temperature::Fahrenheit(f),
            _ => {
                let c: i64 = self.to_celsius().millidegrees();
                let n: i128 = 18 * (c as i128) + 5;
                let q: i128 = n.checked_div_euclid(10).unwrap();
                Temperature::Fahrenheit((q + FAHRENHEIT_OFFSET as i128) as i64)
            },
        }
    }

    /// The same temperature in Kelvin: `K = C + 273.15`.
    pub fn to_kelvin(self) -> (r: Temperature)
        requires
            self is Kelvin || (fits_i64(self.celsius()) && fits_i64(self.kelvin())),
        ensures
            r == Temperature::Kelvin(self.kelvin() as i64),
    {
        match self {
            Temperature::Kelvin(k) => Temperature::Kelvin(k),
            _ => {
                let c: i64 = self.to_celsius().millidegrees();
                Temperature::Kelvin(c + KELVIN_OFFSET)
            },
        }
    }
}

/// Converting a Celsius value to Fahrenheit and back gives the same value:
/// the rounding of the two conversions never adds up to a millidegree.
pub proof fn lemma_fahrenheit_round_trip(c: i64)
    requires
        fits_i64(fahrenheit_of_celsius(c as int)),
    ensures
        Temperature::Fahrenheit(fahrenheit_of_celsius(c as int) as i64).celsius() == c,
{
    let g: int = (18 * c + 5) / 10;
    assert(10 * g <= 18 * c + 5 < 10 * g + 10) by (nonlinear_arith)
        requires
            g == (18 * c + 5) / 10,
    ;
    assert((10 * g + 9) / 18 == c) by (nonlinear_arith)
        requires
            10 * g <= 18 * c + 5 < 10 * g + 10,
    ;
}

} // verus!
