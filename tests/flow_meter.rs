use bambino_fw::flow_meter::{amount_reached, smoothed_rate, FlowCalibration, FlowMeter, MilliliterPerSecond};

#[test]
fn nine_hertz_without_correction_gives_base_volume_per_pulse() {
    let calibration = FlowCalibration::new(440, 0, 0).unwrap();
    let mut meter = FlowMeter::new(calibration);
    for _ in 0..50 {
        meter.on_pulse(111);
    }
    assert_eq!(meter.flowed_mg(), 22000);
    assert_eq!(meter.pulse_ctr(), 50);
    // Integer smoothing settles where (4 * p + 9) / 5 == p.
    assert_eq!(meter.pulses_per_second(), 5);
}

#[test]
fn on_pulse_returns_new_total() {
    let mut meter = FlowMeter::new(FlowCalibration::new(440, 0, 0).unwrap());
    assert_eq!(meter.on_pulse(111), 440);
    assert_eq!(meter.on_pulse(111), 880);
    assert_eq!(meter.flowed_mg(), 880);
}

#[test]
fn measured_calibration_values() {
    let c = FlowCalibration::measured();
    assert_eq!(c.mg_for_pulse(9), 433);
    assert_eq!(c.mg_for_pulse(0), 266);
    assert_eq!(c.mg_for_pulse(20), 637);
    assert_eq!(c.mg_for_pulse(1000), 18840);
}

#[test]
fn calibration_rejects_negative_volumes_and_out_of_range_parameters() {
    assert!(FlowCalibration::new(0, 1_000_000, 0).is_none());
    assert!(FlowCalibration::new(440, 0, -1_000).is_none());
    assert!(FlowCalibration::new(440, 2_000_000_000, 0).is_none());
    assert!(FlowCalibration::new(440, 0, 2_000_000).is_none());
    assert!(FlowCalibration::new(2_000_000, 0, 0).is_none());
    assert!(FlowCalibration::new(440, 174408, 18575).is_some());
    assert_eq!(FlowCalibration::new(440, 174408, 18575).unwrap(), FlowCalibration::measured());
}

#[test]
fn rate_is_smoothed_and_reset_after_a_stop() {
    assert_eq!(smoothed_rate(0, 111), 1);
    assert_eq!(smoothed_rate(9, 111), 9);
    assert_eq!(smoothed_rate(10, 50), 12);
    assert_eq!(smoothed_rate(9, 999), 7);
    assert_eq!(smoothed_rate(9, 1000), 0);
    assert_eq!(smoothed_rate(9, 5000), 0);
    assert_eq!(smoothed_rate(0, 0), 200);
}

#[test]
fn amount_reached_counts_across_wrap_around() {
    assert!(amount_reached(0xFFFF_FF00, 0x100, 512));
    assert!(!amount_reached(0xFFFF_FF00, 0x100, 513));
    assert!(amount_reached(100, 600, 500));
    assert!(!amount_reached(100, 599, 500));
    assert!(amount_reached(7, 7, 0));
}

#[test]
fn difference_grows_with_every_pulse() {
    let mut meter = FlowMeter::new(FlowCalibration::measured());
    let start = meter.flowed_mg();
    let mut previous = 0u32;
    for gap in [200u64, 150, 111, 111, 90, 300, 999, 40, 111] {
        let now = meter.on_pulse(gap);
        let diff = now.wrapping_sub(start);
        assert!(diff > previous);
        previous = diff;
    }
}

#[test]
fn current_flow_is_rate_times_volume() {
    let mut meter = FlowMeter::new(FlowCalibration::new(440, 0, 0).unwrap());
    assert_eq!(meter.current_flow(), MilliliterPerSecond(0));
    for _ in 0..50 {
        meter.on_pulse(111);
    }
    assert_eq!(meter.current_flow(), MilliliterPerSecond(2));
    let mut fast = FlowMeter::new(FlowCalibration::new(1_000_000, 0, 0).unwrap());
    fast.on_pulse(1);
    assert_eq!(fast.current_flow(), MilliliterPerSecond(255));
}

#[test]
fn wait_condition_holds_across_counter_wrap_around() {
    let mut meter = FlowMeter::new(FlowCalibration::new(1_000_000, 0, 0).unwrap());
    for _ in 0..4290 {
        meter.on_pulse(100);
    }
    let start = meter.flowed_mg();
    assert_eq!(start, 4_290_000_000);
    for _ in 0..10 {
        meter.on_pulse(100);
    }
    assert!(meter.flowed_mg() < start);
    assert_eq!(meter.flowed_mg().wrapping_sub(start), 10_000_000);
    assert!(amount_reached(start, meter.flowed_mg(), 10_000_000));
    assert!(!amount_reached(start, meter.flowed_mg(), 10_000_001));
}
