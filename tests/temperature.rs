use bambino_fw::temperature::{average_raw, Temperature};
use bambino_fw::temperature_pid::{TemperaturePID, BASELINE_PERCENT};
use bambino_fw::time::Instant;

#[test]
fn raw_readings_convert_along_the_fit() {
    assert_eq!(Temperature::raw_into_celsius(2064), 44);
    assert_eq!(Temperature::raw_into_celsius(3341), 81);
    assert_eq!(Temperature::raw_into_celsius(1000), 16);
    assert_eq!(Temperature::raw_into_celsius(0), 0);
    assert_eq!(Temperature::raw_into_celsius(u32::MAX), u32::MAX);
}

#[test]
fn temperature_uses_latest_reading() {
    let mut t = Temperature::new();
    assert_eq!(t.temperature_in_c(), 0);
    t.set_raw(2997);
    assert_eq!(t.raw(), 2997);
    assert_eq!(t.temperature_in_c(), 70);
}

#[test]
fn readings_are_averaged_rounding_down() {
    assert_eq!(average_raw(&vec![10, 20, 31]), 20);
    assert_eq!(average_raw(&vec![4095; 10]), 4095);
    assert_eq!(average_raw(&vec![u16::MAX; 1000]), 65535);
}

#[test]
fn pid_output_is_proportional_and_clamped() {
    let mut pid = TemperaturePID::new();
    pid.set_target_temperature(63);
    assert_eq!(pid.update(60, Instant::from_millis(0)), 33);
    pid.set_target_temperature(63);
    assert_eq!(pid.update(65, Instant::from_millis(0)), 12);
    pid.set_target_temperature(63);
    assert_eq!(pid.update(20, Instant::from_millis(0)), 100);
    pid.set_target_temperature(63);
    assert_eq!(pid.update(100, Instant::from_millis(0)), 0);
}

#[test]
fn pid_on_target_stays_at_baseline() {
    let mut pid = TemperaturePID::new();
    pid.set_target_temperature(90);
    for i in 0..20u64 {
        assert_eq!(pid.update(90, Instant::from_millis(i * 50)) as i64, BASELINE_PERCENT);
    }
    assert_eq!(pid.accumulated_error(), 0);
}

#[test]
fn pid_integral_accumulates_within_limit_and_new_target_resets_it() {
    let mut pid = TemperaturePID::new();
    pid.set_target_temperature(63);
    pid.update(61, Instant::from_millis(0));
    assert_eq!(pid.accumulated_error(), 0);
    pid.update(61, Instant::from_millis(10));
    assert_eq!(pid.accumulated_error(), 20);
    pid.update(61, Instant::from_millis(50));
    assert_eq!(pid.accumulated_error(), 20);
    pid.update(62, Instant::from_millis(100));
    assert_eq!(pid.accumulated_error(), 70);
    pid.set_target_temperature(70);
    assert_eq!(pid.accumulated_error(), 0);
    assert_eq!(pid.target_temperature(), 70);
    assert_eq!(pid.update(65, Instant::from_millis(5000)), 42);
    assert_eq!(pid.accumulated_error(), 0);
}
