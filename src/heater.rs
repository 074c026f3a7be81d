//! Software PWM for the heater.
//!
//! The heater line is switched at a fixed base frequency. At every tick of
//! that frequency the output goes high for a share of the period given by the
//! commanded power, then low for the rest; a power of zero emits no pulse.
//! A new command takes effect from the next tick on.
use vstd::prelude::*;

verus! {

/// Length of one PWM period, in milliseconds (a base frequency of 10 Hz).
pub const PERIOD_MS: u32 = 100;

/// Highest power that can be commanded, in percent.
pub const MAX_POWER_PERCENT: u32 = 100;

/// The high time of one period at `percent` power, in milliseconds, rounded down.
pub open spec fn high_time_ms(percent: u32) -> u32 {
    (PERIOD_MS * percent / 100) as u32
}

/// The duty-cycle state of the heater: how long the output is held high in
/// each period, or `None` when the heater is off.
pub struct Heater {
    on_time_ms: Option<u32>,
}

impl Heater {
    /// The high time of each period, or `None` when no pulse is emitted.
    pub closed spec fn spec_on_time(self) -> Option<u32> {
        self.on_time_ms
    }

    /// A heater that is off.
    pub fn new() -> (r: Heater)
        ensures
            r.spec_on_time() is None,
    {
        Heater { on_time_ms: None }
    }

    /// Commands `power_in_percent` of full power from the next period on.
    /// Zero turns the heater off.
    pub fn set_power(&mut self, power_in_percent: u32)
        requires
            power_in_percent <= MAX_POWER_PERCENT,
        ensures
            final(self).spec_on_time() == if power_in_percent == 0 {
                None::<u32>
            } else {
                Some(high_time_ms(power_in_percent))
            },
    {
        if power_in_percent > 0 {
            self.on_time_ms = Some(PERIOD_MS * power_in_percent / 100);
        } else {
            self.on_time_ms = None;
        }
    }

    /// Turns the heater off, whatever power was commanded last.
    pub fn off(&mut self)
        ensures
            final(self).spec_on_time() is None,
    {
        self.on_time_ms = None;
    }

    /// Whether a pulse is emitted in each period.
    pub fn is_on(&self) -> (r: bool)
        ensures
            r == self.spec_on_time() is Some,
    {
        self.on_time_ms.is_some()
    }

    /// How long the output is held high in the period that starts at this
    /// tick, in milliseconds; zero when no pulse is emitted.
    pub fn high_time_for_period(&self) -> (r: u32)
        ensures
            r == match self.spec_on_time() {
                Some(t) => t,
                None => 0,
            },
    {
        match self.on_time_ms {
            Some(t) => t,
            None => 0,
        }
    }
}

/// The high time of a period is the commanded share of it, rounded down to a
/// whole millisecond: none at zero power, the whole period at full power,
/// and never more than the period.
pub proof fn lemma_high_time_proportional(percent: u32)
    requires
        percent <= MAX_POWER_PERCENT,
    ensures
        high_time_ms(percent) <= PERIOD_MS,
        high_time_ms(percent) * 100 <= PERIOD_MS * percent < (high_time_ms(percent) + 1) * 100,
        percent == 0 ==> high_time_ms(percent) == 0,
        percent == MAX_POWER_PERCENT ==> high_time_ms(percent) == PERIOD_MS,
{
}

} // verus!
