use bambino_fw::heater::{Heater, PERIOD_MS};
use bambino_fw::leds::{LEDBlinker, LEDKind, LEDState, LEDs};
use bambino_fw::solenoid::{Solenoid, WaterOutputKind};

#[test]
fn zero_power_emits_no_pulse() {
    let mut heater = Heater::new();
    heater.set_power(0);
    assert_eq!(heater.high_time_for_period(), 0);
    assert!(!heater.is_on());
}

#[test]
fn full_power_fills_the_period() {
    let mut heater = Heater::new();
    heater.set_power(100);
    assert_eq!(heater.high_time_for_period(), PERIOD_MS);
    assert_eq!(PERIOD_MS, 100);
}

#[test]
fn half_power_fills_half_the_period() {
    let mut heater = Heater::new();
    heater.set_power(50);
    assert_eq!(heater.high_time_for_period(), 50);
    heater.set_power(33);
    assert_eq!(heater.high_time_for_period(), 33);
}

#[test]
fn off_overrides_last_command() {
    let mut heater = Heater::new();
    heater.set_power(70);
    assert!(heater.is_on());
    heater.off();
    assert_eq!(heater.high_time_for_period(), 0);
}

#[test]
fn led_states_are_set_per_led_and_for_all() {
    let mut leds = LEDs::new();
    assert_eq!(leds.state(LEDKind::OneCup), LEDState::Off);
    leds.set_state(LEDKind::OneCup, LEDState::Blinking(2));
    assert_eq!(leds.state(LEDKind::OneCup), LEDState::Blinking(2));
    assert_eq!(leds.state(LEDKind::TwoCup), LEDState::Off);
    leds.set_state_all(LEDState::On);
    assert_eq!(leds.state(LEDKind::OneCup), LEDState::On);
    assert_eq!(leds.state(LEDKind::TwoCup), LEDState::On);
    leds.off();
    assert_eq!(leds.state(LEDKind::OneCup), LEDState::Off);
    assert_eq!(leds.state(LEDKind::TwoCup), LEDState::Off);
}

#[test]
fn blinking_led_toggles_on_each_tick() {
    let mut led = LEDBlinker::new();
    assert!(!led.is_on());
    assert_eq!(led.tick_ms(), 3_600_000);
    led.on_command(LEDState::Blinking(2));
    assert_eq!(led.tick_ms(), 500);
    led.on_tick();
    assert!(led.is_on());
    led.on_tick();
    assert!(!led.is_on());
    led.on_command(LEDState::On);
    assert!(led.is_on());
    led.on_tick();
    assert!(led.is_on());
    assert_eq!(led.tick_ms(), 3_600_000);
    led.on_command(LEDState::Blinking(0));
    led.on_tick();
    assert!(led.is_on());
    led.on_command(LEDState::Off);
    assert!(!led.is_on());
}

#[test]
fn solenoid_switches_output() {
    let mut solenoid = Solenoid::new();
    assert_eq!(solenoid.output(), WaterOutputKind::Shower);
    assert!(!solenoid.is_line_high());
    solenoid.switch(WaterOutputKind::SteamWand);
    assert!(solenoid.is_line_high());
    solenoid.switch_to_shower();
    assert_eq!(solenoid.output(), WaterOutputKind::Shower);
    solenoid.switch_to_steam_wand();
    assert_eq!(solenoid.output(), WaterOutputKind::SteamWand);
}
