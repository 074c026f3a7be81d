//! A discrete PID controller with a variable time step that turns the
//! boiler temperature into a heater power.
//!
//! The output is `BASELINE_PERCENT + (Kp * e + Ki * I)` clamped to 0..=100,
//! where `e = target - current` and the gains are given in tenths. The
//! integral `I` sums `e * elapsed_ms` over the updates, but a step is only
//! taken while the sum stays below `INTEGRAL_LIMIT` in magnitude. A new
//! target resets the integral and the update history.
use vstd::prelude::*;

use crate::arith::{div_i64_toward_zero, div_toward_zero};
use crate::time::Instant;

verus! {

/// Output of the controller when the temperature is on target, in percent.
pub const BASELINE_PERCENT: i64 = 20;

/// Proportional gain, in tenths (four and four tenths).
pub const KP_TENTHS: i64 = 44;

/// Integral gain, in tenths.
pub const KI_TENTHS: i64 = 0;

/// The integral is only updated while its magnitude stays below this.
pub const INTEGRAL_LIMIT: i64 = 100;

/// Largest output of the controller, in percent.
pub const MAX_OUTPUT_PERCENT: u32 = 100;

/// The output, in percent, for the temperature difference `difference` and
/// the integral `integral`.
pub open spec fn pid_output(difference: int, integral: int) -> u32 {
    let raw = BASELINE_PERCENT + div_toward_zero(KP_TENTHS * difference + KI_TENTHS * integral, 10);
    if raw < 0 {
        0
    } else if raw > MAX_OUTPUT_PERCENT {
        MAX_OUTPUT_PERCENT
    } else {
        raw as u32
    }
}

/// The integral after a step of `difference` held for `elapsed_ms`: the step
/// is taken only if the sum stays below `INTEGRAL_LIMIT` in magnitude.
pub open spec fn integrate(integral: int, difference: int, elapsed_ms: int) -> int {
    let next = integral + difference * elapsed_ms;
    if -INTEGRAL_LIMIT < next < INTEGRAL_LIMIT {
        next
    } else {
        integral
    }
}

/// The temperature controller.
pub struct TemperaturePID {
    last_update: Option<Instant>,
    last_temperature: Option<u32>,
    target_temperature: u32,
    error: i64,
}

impl TemperaturePID {
    /// When the last update was made, if any since the last reset.
    pub closed spec fn spec_last_update(self) -> Option<Instant> {
        self.last_update
    }

    /// The temperature of the last update, if any since the last reset.
    pub closed spec fn spec_last_temperature(self) -> Option<u32> {
        self.last_temperature
    }

    /// The target temperature, in °C.
    pub closed spec fn spec_target(self) -> u32 {
        self.target_temperature
    }

    /// The accumulated error (the integral).
    pub closed spec fn spec_integral(self) -> int {
        self.error as int
    }

    /// The integral stays below its limit in magnitude.
    pub open spec fn wf(self) -> bool {
        -INTEGRAL_LIMIT < self.spec_integral() < INTEGRAL_LIMIT
    }

    /// The controller after an update with `current_temperature` at `now`.
    pub closed spec fn spec_update(self, current_temperature: u32, now: Instant) -> TemperaturePID {
        let difference = self.target_temperature - current_temperature;
        TemperaturePID {
            last_update: Some(now),
            last_temperature: Some(current_temperature),
            target_temperature: self.target_temperature,
            error: match self.last_update {
                Some(last) => integrate(self.error as int, difference, now.spec_millis_since(last) as int) as i64,
                None => self.error,
            },
        }
    }

    /// The output of an update with `current_temperature` at `now`.
    pub open spec fn spec_update_output(self, current_temperature: u32, now: Instant) -> u32 {
        pid_output(
            self.spec_target() - current_temperature,
            self.spec_update(current_temperature, now).spec_integral(),
        )
    }

    /// A controller with target 0 °C and no history.
    pub fn new() -> (r: TemperaturePID)
        ensures
            r.wf(),
            r.spec_target() == 0,
            r.spec_integral() == 0,
            r.spec_last_update() is None,
            r.spec_last_temperature() is None,
    {
        TemperaturePID { last_update: None, last_temperature: None, target_temperature: 0, error: 0 }
    }

    /// Sets a new target and resets the controller: the integral becomes
    /// zero and the next update counts as the first one.
    pub fn set_target_temperature(&mut self, target_temperature: u32)
        ensures
            final(self).wf(),
            final(self).spec_target() == target_temperature,
            final(self).spec_integral() == 0,
            final(self).spec_last_update() is None,
            final(self).spec_last_temperature() is None,
    {
        self.target_temperature = target_temperature;
        self.error = 0;
        self.last_update = None;
        self.last_temperature = None;
    }

    /// The target temperature, in °C.
    pub fn target_temperature(&self) -> (r: u32)
        ensures
            r == self.spec_target(),
    {
        self.target_temperature
    }

    /// The accumulated error (the integral).
    pub fn accumulated_error(&self) -> (r: i64)
        ensures
            r == self.spec_integral(),
    {
        self.error
    }

    /// Feeds the temperature measured at `now` and returns the next heater
    /// power in percent. Unless this is the first update since the last
    /// reset, the difference to the target, times the milliseconds since the
    /// last update, is added to the integral while the integral stays within
    /// its limit.
    pub fn update(&mut self, current_temperature: u32, now: Instant) -> (r: u32)
        requires
            old(self).wf(),
        ensures
            final(self).wf(),
            *final(self) == old(self).spec_update(current_temperature, now),
            final(self).spec_target() == old(self).spec_target(),
            final(self).spec_last_update() == Some(now),
            final(self).spec_last_temperature() == Some(current_temperature),
            final(self).spec_integral() == match old(self).spec_last_update() {
                Some(last) => integrate(
                    old(self).spec_integral(),
                    old(self).spec_target() - current_temperature,
                    now.spec_millis_since(last) as int,
                ),
                None => old(self).spec_integral(),
            },
            r == pid_output(old(self).spec_target() - current_temperature, final(self).spec_integral()),
            r <= MAX_OUTPUT_PERCENT,
    {
        let difference: i64 = self.target_temperature as i64 - current_temperature as i64;
        if let Some(last) = self.last_update {
            let elapsed = now.millis_since(last);
            assert(-0x1_0000_0000_0000_0000_0000_0000 < (difference as int) * (elapsed as int)
                < 0x1_0000_0000_0000_0000_0000_0000) by (nonlinear_arith)
                requires
                    -0x1_0000_0000 < difference < 0x1_0000_0000,
                    0 <= elapsed < 0x1_0000_0000_0000_0000;
            let step: i128 = difference as i128 * elapsed as i128;
            let next: i128 = self.error as i128 + step;
            if -(INTEGRAL_LIMIT as i128) < next && next < INTEGRAL_LIMIT as i128 {
                self.error = next as i64;
            }
        }
        self.last_temperature = Some(current_temperature);
        self.last_update = Some(now);
        let output: i64 = BASELINE_PERCENT + div_i64_toward_zero(
            KP_TENTHS * difference + KI_TENTHS * self.error,
            10,
        );
        if output < 0 {
            0
        } else if output > MAX_OUTPUT_PERCENT as i64 {
            MAX_OUTPUT_PERCENT
        } else {
            output as u32
        }
    }
}

/// On target, an update leaves the integral as it is and returns the
/// baseline output; so however many updates are made at the target
/// temperature, the output stays at the baseline.
pub proof fn lemma_on_target_output_is_baseline(pid: TemperaturePID, now: Instant)
    requires
        pid.wf(),
    ensures
        pid.spec_update(pid.spec_target(), now).spec_integral() == pid.spec_integral(),
        pid.spec_update_output(pid.spec_target(), now) == BASELINE_PERCENT,
{
}

/// After `set_target_temperature`, the next update's output depends only on
/// the new target and the measured temperature, not on anything the
/// controller accumulated before: it is the output for an integral of zero.
pub proof fn lemma_new_target_ignores_history(
    pid: TemperaturePID,
    reset: TemperaturePID,
    target: u32,
    current_temperature: u32,
    now: Instant,
)
    requires
        reset.spec_target() == target,
        reset.spec_integral() == 0,
        reset.spec_last_update() is None,
    ensures
        reset.spec_update(current_temperature, now).spec_integral() == 0,
        reset.spec_update_output(current_temperature, now) == pid_output(target - current_temperature, 0),
{
}

} // verus!
