//! Pulse integration for the flow sensor.
//!
//! Every falling edge of the sensor is one pulse. The meter keeps an
//! exponentially smoothed estimate of the pulse rate and adds, per pulse, a
//! volume that an affine calibration derives from that rate. The cumulative
//! volume is a `u32` in milligrams that wraps around.
use vstd::prelude::*;

use crate::arith::{div_i64_toward_zero, div_toward_zero, lemma_div_toward_zero_monotonic};

verus! {

/// A gap between pulses at least this long (in milliseconds) means the flow
/// had stopped; the rate estimate starts again from zero.
pub const FLOW_STOPPED_GAP_MS: u64 = 1000;

/// Highest pulse rate that the estimate can reach (one pulse per millisecond).
pub const MAX_PULSES_PER_SECOND: u32 = 1000;

/// Nominal volume of one pulse, in milligrams, for a pump at about half power
/// (9 pulses per second).
pub const MG_PER_PULSE: u32 = 440;

/// Measured correction at a rate of zero, in thousandths of a milligram.
pub const CORRECTION_AT_ZERO_UMG: i64 = 174408;

/// Decrease of the correction per pulse per second, in thousandths of a milligram.
pub const CORRECTION_SLOPE_UMG: i64 = 18575;

/// Largest volume per pulse that a calibration may name, in milligrams.
pub const MAX_MG_PER_PULSE: u32 = 1000000;

/// Largest magnitude of the correction at rate zero, in thousandths of a milligram.
pub const MAX_CORRECTION_AT_ZERO_UMG: i64 = 1000000000;

/// Largest magnitude of the correction slope, in thousandths of a milligram.
pub const MAX_CORRECTION_SLOPE_UMG: i64 = 1000000;

/// The volume of one pulse, in milligrams, at `pulses_per_second` under the
/// calibration `(mg_per_pulse, correction_at_zero, correction_slope)`.
pub open spec fn calibrated_pulse_mg(
    mg_per_pulse: int,
    correction_at_zero: int,
    correction_slope: int,
    pulses_per_second: int,
) -> int {
    mg_per_pulse - div_toward_zero(correction_at_zero - correction_slope * pulses_per_second, 1000)
}

/// The next rate estimate, in pulses per second, after a pulse that came
/// `gap_ms` after the previous one: four fifths of the old estimate plus one
/// fifth of the rate the gap shows, or zero after a stop. A gap under one
/// millisecond counts as one millisecond.
pub open spec fn next_rate(pulses_per_second: u32, gap_ms: u64) -> u32 {
    if gap_ms < FLOW_STOPPED_GAP_MS {
        let gap: int = if gap_ms == 0 { 1 } else { gap_ms as int };
        ((4 * pulses_per_second + 1000int / gap) / 5) as u32
    } else {
        0
    }
}

/// `next_rate`.
pub fn smoothed_rate(pulses_per_second: u32, gap_ms: u64) -> (r: u32)
    requires
        pulses_per_second <= MAX_PULSES_PER_SECOND,
    ensures
        r == next_rate(pulses_per_second, gap_ms),
        r <= MAX_PULSES_PER_SECOND,
{
    if gap_ms < FLOW_STOPPED_GAP_MS {
        let gap: u64 = if gap_ms == 0 { 1 } else { gap_ms };
        let sample: u64 = 1000 / gap;
        assert(sample <= 1000) by (nonlinear_arith)
            requires gap >= 1, sample == 1000int / (gap as int);
        let r = ((4 * pulses_per_second as u64 + sample) / 5) as u32;
        r
    } else {
        0
    }
}

/// The affine calibration of the volume per pulse: at a rate of `p` pulses
/// per second a pulse carries `mg_per_pulse - c(p) / 1000` milligrams, where
/// `c(p) = correction_at_zero - correction_slope * p` and the division
/// rounds toward zero.
#[derive(Clone, Copy, Debug, PartialEq, Eq, Structural)]
pub struct FlowCalibration {
    mg_per_pulse: u32,
    correction_at_zero_umg: i64,
    correction_slope_umg: i64,
}

impl FlowCalibration {
    /// Nominal volume of one pulse, in milligrams.
    pub closed spec fn spec_mg_per_pulse(self) -> int {
        self.mg_per_pulse as int
    }

    /// Correction at rate zero, in thousandths of a milligram.
    pub closed spec fn spec_correction_at_zero(self) -> int {
        self.correction_at_zero_umg as int
    }

    /// Decrease of the correction per pulse per second, in thousandths of a milligram.
    pub closed spec fn spec_correction_slope(self) -> int {
        self.correction_slope_umg as int
    }

    /// The correction at `pulses_per_second`, in thousandths of a milligram.
    pub open spec fn correction_umg(self, pulses_per_second: int) -> int {
        self.spec_correction_at_zero() - self.spec_correction_slope() * pulses_per_second
    }

    /// The volume of one pulse at `pulses_per_second`, in milligrams.
    pub open spec fn pulse_mg(self, pulses_per_second: int) -> int {
        calibrated_pulse_mg(
            self.spec_mg_per_pulse(),
            self.spec_correction_at_zero(),
            self.spec_correction_slope(),
            pulses_per_second,
        )
    }

    /// The parameters are within their bounds and no rate the meter can
    /// estimate gives a pulse a negative volume.
    pub open spec fn wf(self) -> bool {
        &&& self.spec_mg_per_pulse() <= MAX_MG_PER_PULSE
        &&& -MAX_CORRECTION_AT_ZERO_UMG <= self.spec_correction_at_zero() <= MAX_CORRECTION_AT_ZERO_UMG
        &&& -MAX_CORRECTION_SLOPE_UMG <= self.spec_correction_slope() <= MAX_CORRECTION_SLOPE_UMG
        &&& forall|p: int| 0 <= p <= MAX_PULSES_PER_SECOND ==> #[trigger] self.pulse_mg(p) >= 0
    }

    /// The calibration measured on the machine: 440 mg per pulse, corrected
    /// by 174408 thousandths of a milligram less 18575 per pulse per second.
    pub fn measured() -> (r: FlowCalibration)
        ensures
            r.wf(),
            r.spec_mg_per_pulse() == MG_PER_PULSE,
            r.spec_correction_at_zero() == CORRECTION_AT_ZERO_UMG,
            r.spec_correction_slope() == CORRECTION_SLOPE_UMG,
    {
        let r = FlowCalibration {
            mg_per_pulse: MG_PER_PULSE,
            correction_at_zero_umg: CORRECTION_AT_ZERO_UMG,
            correction_slope_umg: CORRECTION_SLOPE_UMG,
        };
        proof {
            assert forall|p: int| 0 <= p <= MAX_PULSES_PER_SECOND implies #[trigger] r.pulse_mg(p) >= 0 by {
                lemma_div_toward_zero_monotonic(r.correction_umg(p), CORRECTION_AT_ZERO_UMG as int, 1000);
                assert(r.correction_umg(p) <= CORRECTION_AT_ZERO_UMG) by (nonlinear_arith)
                    requires
                        r.correction_umg(p) == CORRECTION_AT_ZERO_UMG - CORRECTION_SLOPE_UMG * p,
                        p >= 0;
            }
        }
        r
    }

    /// A calibration with the given parameters, or `None` when a parameter
    /// is out of its bounds or some rate from zero to
    /// `MAX_PULSES_PER_SECOND` would give a pulse a negative volume.
    pub fn new(mg_per_pulse: u32, correction_at_zero_umg: i64, correction_slope_umg: i64) -> (r: Option<FlowCalibration>)
        ensures
            r is Some <==> {
                &&& mg_per_pulse <= MAX_MG_PER_PULSE
                &&& -MAX_CORRECTION_AT_ZERO_UMG <= correction_at_zero_umg <= MAX_CORRECTION_AT_ZERO_UMG
                &&& -MAX_CORRECTION_SLOPE_UMG <= correction_slope_umg <= MAX_CORRECTION_SLOPE_UMG
                &&& forall|p: int| 0 <= p <= MAX_PULSES_PER_SECOND ==>
                    #[trigger] calibrated_pulse_mg(mg_per_pulse as int, correction_at_zero_umg as int, correction_slope_umg as int, p) >= 0
            },
            r matches Some(c) ==> {
                &&& c.wf()
                &&& c.spec_mg_per_pulse() == mg_per_pulse
                &&& c.spec_correction_at_zero() == correction_at_zero_umg
                &&& c.spec_correction_slope() == correction_slope_umg
            },
    {
        if mg_per_pulse > MAX_MG_PER_PULSE || correction_at_zero_umg < -MAX_CORRECTION_AT_ZERO_UMG
            || correction_at_zero_umg > MAX_CORRECTION_AT_ZERO_UMG
            || correction_slope_umg < -MAX_CORRECTION_SLOPE_UMG
            || correction_slope_umg > MAX_CORRECTION_SLOPE_UMG {
            return None;
        }
        let c = FlowCalibration { mg_per_pulse, correction_at_zero_umg, correction_slope_umg };
        let low = c.pulse_mg_at(0);
        let high = c.pulse_mg_at(MAX_PULSES_PER_SECOND);
        if low < 0 || high < 0 {
            proof {
                if low < 0 {
                    assert(c.pulse_mg(0) < 0);
                } else {
                    assert(c.pulse_mg(MAX_PULSES_PER_SECOND as int) < 0);
                }
            }
            return None;
        }
        proof {
            assert forall|p: int| 0 <= p <= MAX_PULSES_PER_SECOND implies #[trigger] c.pulse_mg(p) >= 0 by {
                let cz = c.spec_correction_at_zero();
                let s = c.spec_correction_slope();
                if s >= 0 {
                    assert(c.correction_umg(p) <= c.correction_umg(0)) by (nonlinear_arith)
                        requires
                            c.correction_umg(p) == cz - s * p,
                            c.correction_umg(0) == cz - s * 0,
                            s >= 0,
                            p >= 0;
                    lemma_div_toward_zero_monotonic(c.correction_umg(p), c.correction_umg(0), 1000);
                } else {
                    assert(c.correction_umg(p) <= c.correction_umg(1000)) by (nonlinear_arith)
                        requires
                            c.correction_umg(p) == cz - s * p,
                            c.correction_umg(1000) == cz - s * 1000,
                            s < 0,
                            p <= 1000;
                    lemma_div_toward_zero_monotonic(c.correction_umg(p), c.correction_umg(1000), 1000);
                }
            }
            assert forall|p: int| 0 <= p <= MAX_PULSES_PER_SECOND implies #[trigger] calibrated_pulse_mg(
                mg_per_pulse as int,
                correction_at_zero_umg as int,
                correction_slope_umg as int,
                p,
            ) >= 0 by {
                assert(c.pulse_mg(p) >= 0);
            }
        }
        Some(c)
    }

    /// The volume of one pulse at `pulses_per_second`, in milligrams, signed.
    fn pulse_mg_at(&self, pulses_per_second: u32) -> (r: i64)
        requires
            self.spec_mg_per_pulse() <= MAX_MG_PER_PULSE,
            -MAX_CORRECTION_AT_ZERO_UMG <= self.spec_correction_at_zero() <= MAX_CORRECTION_AT_ZERO_UMG,
            -MAX_CORRECTION_SLOPE_UMG <= self.spec_correction_slope() <= MAX_CORRECTION_SLOPE_UMG,
            pulses_per_second <= MAX_PULSES_PER_SECOND,
        ensures
            r == self.pulse_mg(pulses_per_second as int),
            r <= MAX_MG_PER_PULSE + 2000000,
    {
        let p = pulses_per_second as i64;
        assert(-1000000000 <= self.correction_slope_umg * p <= 1000000000) by (nonlinear_arith)
            requires
                -1000000 <= self.correction_slope_umg <= 1000000,
                0 <= p <= 1000;
        let correction: i64 = self.correction_at_zero_umg - self.correction_slope_umg * p;
        let correction_mg = div_i64_toward_zero(correction, 1000);
        self.mg_per_pulse as i64 - correction_mg
    }

    /// The volume of one pulse at `pulses_per_second`, in milligrams.
    pub fn mg_for_pulse(&self, pulses_per_second: u32) -> (r: u32)
        requires
            self.wf(),
            pulses_per_second <= MAX_PULSES_PER_SECOND,
        ensures
            r == self.pulse_mg(pulses_per_second as int),
    {
        let v = self.pulse_mg_at(pulses_per_second);
        assert(self.pulse_mg(pulses_per_second as int) >= 0);
        v as u32
    }
}

/// A flow rate in millilitres per second.
#[derive(Clone, Copy, Debug, PartialEq, Eq, Structural)]
pub struct MilliliterPerSecond(pub u8);

/// `current - start` modulo 2^32: how far a wrapping counter has advanced.
pub open spec fn wrapping_diff(current: u32, start: u32) -> int {
    if current >= start {
        current - start
    } else {
        current - start + 0x1_0000_0000
    }
}

/// Whether a counter that stood at `start_mg` and now stands at `current_mg`
/// has advanced by at least `amount_mg`, counting across a wrap-around.
pub fn amount_reached(start_mg: u32, current_mg: u32, amount_mg: u32) -> (r: bool)
    ensures
        r == (wrapping_diff(current_mg, start_mg) >= amount_mg),
{
    current_mg.wrapping_sub(start_mg) >= amount_mg
}

/// The flow integrator: rate estimate, cumulative volume and pulse count.
pub struct FlowMeter {
    calibration: FlowCalibration,
    pulses_per_second: u32,
    total_mg: u32,
    pulse_ctr: u32,
}

impl FlowMeter {
    /// The calibration in use.
    pub closed spec fn spec_calibration(self) -> FlowCalibration {
        self.calibration
    }

    /// The smoothed pulse rate, in pulses per second.
    pub closed spec fn spec_rate(self) -> u32 {
        self.pulses_per_second
    }

    /// The cumulative volume, in milligrams, modulo 2^32.
    pub closed spec fn spec_flowed_mg(self) -> u32 {
        self.total_mg
    }

    /// The number of pulses counted, modulo 2^32.
    pub closed spec fn spec_pulse_ctr(self) -> u32 {
        self.pulse_ctr
    }

    /// The calibration is valid and the rate within its bound.
    pub open spec fn wf(self) -> bool {
        self.spec_calibration().wf() && self.spec_rate() <= MAX_PULSES_PER_SECOND
    }

    /// The volume, in milligrams, of a pulse that comes `gap_ms` after the previous one.
    pub open spec fn next_pulse_mg(self, gap_ms: u64) -> int {
        self.spec_calibration().pulse_mg(next_rate(self.spec_rate(), gap_ms) as int)
    }

    /// The meter after a pulse that came `gap_ms` after the previous one.
    pub closed spec fn pulse_step(self, gap_ms: u64) -> FlowMeter {
        FlowMeter {
            calibration: self.calibration,
            pulses_per_second: next_rate(self.pulses_per_second, gap_ms),
            total_mg: ((self.total_mg + self.next_pulse_mg(gap_ms)) % 0x1_0000_0000) as u32,
            pulse_ctr: ((self.pulse_ctr + 1) % 0x1_0000_0000) as u32,
        }
    }

    /// A meter with no flow counted yet.
    pub fn new(calibration: FlowCalibration) -> (r: FlowMeter)
        requires
            calibration.wf(),
        ensures
            r.wf(),
            r.spec_calibration() == calibration,
            r.spec_rate() == 0,
            r.spec_flowed_mg() == 0,
            r.spec_pulse_ctr() == 0,
    {
        FlowMeter { calibration, pulses_per_second: 0, total_mg: 0, pulse_ctr: 0 }
    }

    /// The amount of water flowed so far, in milligrams, modulo 2^32.
    pub fn flowed_mg(&self) -> (r: u32)
        ensures
            r == self.spec_flowed_mg(),
    {
        self.total_mg
    }

    /// Number of pulses counted so far, modulo 2^32.
    pub fn pulse_ctr(&self) -> (r: u32)
        ensures
            r == self.spec_pulse_ctr(),
    {
        self.pulse_ctr
    }

    /// The smoothed pulse rate, in pulses per second.
    pub fn pulses_per_second(&self) -> (r: u32)
        ensures
            r == self.spec_rate(),
    {
        self.pulses_per_second
    }

    /// Counts a pulse that came `gap_ms` milliseconds after the previous one:
    /// updates the rate estimate, adds the calibrated volume of the pulse at
    /// the new rate to the cumulative volume and returns the new cumulative
    /// volume.
    pub fn on_pulse(&mut self, gap_ms: u64) -> (r: u32)
        requires
            old(self).wf(),
        ensures
            final(self).wf(),
            *final(self) == old(self).pulse_step(gap_ms),
            final(self).spec_calibration() == old(self).spec_calibration(),
            final(self).spec_rate() == next_rate(old(self).spec_rate(), gap_ms),
            final(self).spec_flowed_mg() == (old(self).spec_flowed_mg() + old(self).next_pulse_mg(gap_ms))
                % 0x1_0000_0000,
            final(self).spec_pulse_ctr() == (old(self).spec_pulse_ctr() + 1) % 0x1_0000_0000,
            r == final(self).spec_flowed_mg(),
            wrapping_diff(r, old(self).spec_flowed_mg()) == old(self).next_pulse_mg(gap_ms) % 0x1_0000_0000,
    {
        let rate = smoothed_rate(self.pulses_per_second, gap_ms);
        let amount = self.calibration.mg_for_pulse(rate);
        self.pulses_per_second = rate;
        self.total_mg = self.total_mg.wrapping_add(amount);
        self.pulse_ctr = self.pulse_ctr.wrapping_add(1);
        self.total_mg
    }

    /// The current flow in millilitres per second: the rate estimate times
    /// the calibrated volume of a pulse at that rate, rounded down, and
    /// 255 when it is higher.
    pub fn current_flow(&self) -> (r: MilliliterPerSecond)
        requires
            self.wf(),
        ensures
            r.0 == if self.spec_rate() * self.spec_calibration().pulse_mg(self.spec_rate() as int) / 1000 > 255 {
                255
            } else {
                self.spec_rate() * self.spec_calibration().pulse_mg(self.spec_rate() as int) / 1000
            },
    {
        let rate = self.pulses_per_second;
        let mg = self.calibration.mg_for_pulse(rate);
        assert(rate as u64 * mg as u64 <= 1000 * 0xffff_ffff) by (nonlinear_arith)
            requires rate <= 1000, mg <= 0xffff_ffffu32;
        let ml = (rate as u64 * mg as u64) / 1000;
        if ml > 255 {
            MilliliterPerSecond(255)
        } else {
            MilliliterPerSecond(ml as u8)
        }
    }
}

/// The meter after pulses with the gaps `gaps_ms`, in order.
pub open spec fn run_pulses(meter: FlowMeter, gaps_ms: Seq<u64>) -> FlowMeter
    decreases gaps_ms.len(),
{
    if gaps_ms.len() == 0 {
        meter
    } else {
        run_pulses(meter, gaps_ms.drop_last()).pulse_step(gaps_ms.last())
    }
}

/// The volume, in milligrams, that pulses with the gaps `gaps_ms` add, without wrap-around.
pub open spec fn delivered_mg(meter: FlowMeter, gaps_ms: Seq<u64>) -> int
    decreases gaps_ms.len(),
{
    if gaps_ms.len() == 0 {
        0
    } else {
        delivered_mg(meter, gaps_ms.drop_last()) + run_pulses(meter, gaps_ms.drop_last()).next_pulse_mg(
            gaps_ms.last(),
        )
    }
}

proof fn lemma_run_pulses_wf(meter: FlowMeter, gaps_ms: Seq<u64>)
    requires
        meter.wf(),
    ensures
        run_pulses(meter, gaps_ms).wf(),
        run_pulses(meter, gaps_ms).spec_flowed_mg() == (meter.spec_flowed_mg() + delivered_mg(meter, gaps_ms))
            % 0x1_0000_0000,
        delivered_mg(meter, gaps_ms) >= 0,
    decreases gaps_ms.len(),
{
    if gaps_ms.len() > 0 {
        let prev = run_pulses(meter, gaps_ms.drop_last());
        lemma_run_pulses_wf(meter, gaps_ms.drop_last());
        let g = gaps_ms.last();
        if g < FLOW_STOPPED_GAP_MS {
            let gap: int = if g == 0 { 1 } else { g as int };
            assert(1000int / gap <= 1000) by (nonlinear_arith)
                requires gap >= 1;
        }
        assert(prev.next_pulse_mg(g) >= 0);
        let d = delivered_mg(meter, gaps_ms.drop_last());
        let a = prev.next_pulse_mg(g);
        let t0 = meter.spec_flowed_mg() as int;
        assert((((t0 + d) % 0x1_0000_0000) + a) % 0x1_0000_0000 == (t0 + (d + a)) % 0x1_0000_0000) by {
            vstd::arithmetic::div_mod::lemma_add_mod_noop(t0 + d, a, 0x1_0000_0000);
            vstd::arithmetic::div_mod::lemma_mod_twice(a, 0x1_0000_0000);
            vstd::arithmetic::div_mod::lemma_add_mod_noop((t0 + d) % 0x1_0000_0000, a, 0x1_0000_0000);
        }
    }
}

proof fn lemma_delivered_prefix_monotonic(meter: FlowMeter, gaps_ms: Seq<u64>, k: int)
    requires
        meter.wf(),
        0 <= k <= gaps_ms.len(),
    ensures
        delivered_mg(meter, gaps_ms.take(k)) <= delivered_mg(meter, gaps_ms),
    decreases gaps_ms.len(),
{
    if k < gaps_ms.len() {
        lemma_delivered_prefix_monotonic(meter, gaps_ms.drop_last(), k);
        assert(gaps_ms.drop_last().take(k) =~= gaps_ms.take(k));
        lemma_run_pulses_wf(meter, gaps_ms.drop_last());
        let prev = run_pulses(meter, gaps_ms.drop_last());
        let g = gaps_ms.last();
        if g < FLOW_STOPPED_GAP_MS {
            let gap: int = if g == 0 { 1 } else { g as int };
            assert(1000int / gap <= 1000) by (nonlinear_arith)
                requires gap >= 1;
        }
        assert(prev.next_pulse_mg(g) >= 0);
    } else {
        assert(gaps_ms.take(k) =~= gaps_ms);
    }
}

/// Pulses only ever add volume: as long as less than 2^32 mg flows in all,
/// the wrapping difference between the cumulative volume after a sequence of
/// pulses and before it equals the volume the pulses delivered, and it does
/// not decrease from one pulse to the next. A wait for `amount_mg` that began
/// before the pulses is satisfied by the final value exactly when they
/// delivered at least `amount_mg`.
pub proof fn lemma_flow_difference_monotonic(meter: FlowMeter, gaps_ms: Seq<u64>, k: int, amount_mg: u32)
    requires
        meter.wf(),
        0 <= k <= gaps_ms.len(),
        delivered_mg(meter, gaps_ms) < 0x1_0000_0000,
    ensures
        wrapping_diff(run_pulses(meter, gaps_ms).spec_flowed_mg(), meter.spec_flowed_mg())
            == delivered_mg(meter, gaps_ms),
        wrapping_diff(run_pulses(meter, gaps_ms.take(k)).spec_flowed_mg(), meter.spec_flowed_mg())
            <= wrapping_diff(run_pulses(meter, gaps_ms).spec_flowed_mg(), meter.spec_flowed_mg()),
        (wrapping_diff(run_pulses(meter, gaps_ms).spec_flowed_mg(), meter.spec_flowed_mg()) >= amount_mg)
            == (delivered_mg(meter, gaps_ms) >= amount_mg),
{
    lemma_run_pulses_wf(meter, gaps_ms);
    lemma_run_pulses_wf(meter, gaps_ms.take(k));
    lemma_delivered_prefix_monotonic(meter, gaps_ms, k);
    lemma_wrapping_diff_of_sum(meter.spec_flowed_mg(), delivered_mg(meter, gaps_ms));
    lemma_wrapping_diff_of_sum(meter.spec_flowed_mg(), delivered_mg(meter, gaps_ms.take(k)));
}

proof fn lemma_wrapping_diff_of_sum(start: u32, d: int)
    requires
        0 <= d < 0x1_0000_0000,
    ensures
        wrapping_diff(((start + d) % 0x1_0000_0000) as u32, start) == d,
{
    if start + d < 0x1_0000_0000 {
        vstd::arithmetic::div_mod::lemma_small_mod((start + d) as nat, 0x1_0000_0000);
    } else {
        vstd::arithmetic::div_mod::lemma_mod_sub_multiples_vanish((start + d) as int, 0x1_0000_0000);
        vstd::arithmetic::div_mod::lemma_small_mod((start + d - 0x1_0000_0000) as nat, 0x1_0000_0000);
    }
}

} // verus!
