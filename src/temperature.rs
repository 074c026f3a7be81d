//! Conversion of thermistor readings into degrees Celsius.
//!
//! The reading of the ADC maps to a temperature through a quadratic fitted to
//! measurements: `t = (A * x^2 + B * x - C) / 10^11` with the coefficients
//! below, rounded down and held to the range of a `u32`.
use vstd::prelude::*;

verus! {

/// Quadratic coefficient of the fit, times 10^11.
pub const FIT_A: u128 = 150104;

/// Linear coefficient of the fit, times 10^11.
pub const FIT_B: u128 = 2096230000;

/// Constant term of the fit (subtracted), times 10^11.
pub const FIT_C: u128 = 559606000000;

/// Scale of the fit's coefficients.
pub const FIT_SCALE: u128 = 100000000000;

/// The temperature, in °C, for the raw reading `raw`: the fitted quadratic,
/// rounded down, zero where it is negative and `u32::MAX` where it is larger.
pub open spec fn celsius_of_raw(raw: u32) -> u32 {
    let scaled = FIT_A * raw * raw + FIT_B * raw - FIT_C;
    if scaled < 0 {
        0
    } else if scaled / (FIT_SCALE as int) > u32::MAX {
        u32::MAX
    } else {
        (scaled / (FIT_SCALE as int)) as u32
    }
}

/// The mean of `readings`, rounded down.
pub open spec fn mean_of(readings: Seq<u16>) -> int {
    sum_of(readings) / readings.len() as int
}

/// The sum of `readings`.
pub open spec fn sum_of(readings: Seq<u16>) -> int
    decreases readings.len(),
{
    if readings.len() == 0 {
        0
    } else {
        sum_of(readings.drop_last()) + readings.last()
    }
}

/// The latest averaged reading of the thermistor.
pub struct Temperature {
    raw: u32,
}

impl Temperature {
    /// The latest averaged raw reading.
    pub closed spec fn spec_raw(self) -> u32 {
        self.raw
    }

    /// No reading yet: the raw value is zero.
    pub fn new() -> (r: Temperature)
        ensures
            r.spec_raw() == 0,
    {
        Temperature { raw: 0 }
    }

    /// Records a new averaged raw reading.
    pub fn set_raw(&mut self, raw: u32)
        ensures
            final(self).spec_raw() == raw,
    {
        self.raw = raw;
    }

    /// The latest averaged raw reading.
    pub fn raw(&self) -> (r: u32)
        ensures
            r == self.spec_raw(),
    {
        self.raw
    }

    /// The temperature of the latest reading, in °C.
    pub fn temperature_in_c(&self) -> (r: u32)
        ensures
            r == celsius_of_raw(self.spec_raw()),
    {
        Temperature::raw_into_celsius(self.raw)
    }

    /// The temperature, in °C, for the raw reading `raw_value`.
    pub fn raw_into_celsius(raw_value: u32) -> (r: u32)
        ensures
            r == celsius_of_raw(raw_value),
    {
        let x = raw_value as u128;
        assert(x * x <= 0xffff_ffff * 0xffff_ffff) by (nonlinear_arith)
            requires x <= 0xffff_ffff;
        assert(FIT_A * (x * x) <= FIT_A * (0xffff_ffff * 0xffff_ffff)) by (nonlinear_arith)
            requires x * x <= 0xffff_ffff * 0xffff_ffff;
        assert(FIT_B * x <= FIT_B * 0xffff_ffff) by (nonlinear_arith)
            requires x <= 0xffff_ffff;
        let positive: u128 = FIT_A * (x * x) + FIT_B * x;
        assert(FIT_A * raw_value * raw_value == FIT_A * (x * x)) by (nonlinear_arith)
            requires x == raw_value;
        if positive < FIT_C {
            0
        } else {
            let t = (positive - FIT_C) / FIT_SCALE;
            if t > u32::MAX as u128 {
                u32::MAX
            } else {
                t as u32
            }
        }
    }
}

/// The mean of `readings`, rounded down: the averaging of a burst of ADC
/// samples.
pub fn average_raw(readings: &Vec<u16>) -> (r: u32)
    requires
        0 < readings@.len() <= u16::MAX,
    ensures
        r == mean_of(readings@),
{
    let mut sum: u32 = 0;
    let mut i: usize = 0;
    while i < readings.len()
        invariant
            0 <= i <= readings@.len(),
            readings@.len() <= u16::MAX,
            sum == sum_of(readings@.take(i as int)),
            sum <= i * u16::MAX,
        decreases readings@.len() - i,
    {
        assert(readings@.take(i as int + 1).drop_last() =~= readings@.take(i as int));
        assert(i * u16::MAX + u16::MAX <= u16::MAX * u16::MAX) by (nonlinear_arith)
            requires i < u16::MAX;
        sum = sum + readings[i] as u32;
        i = i + 1;
    }
    assert(readings@.take(readings@.len() as int) =~= readings@);
    sum / readings.len() as u32
}

} // verus!
