//! Control core of a single-boiler espresso machine: button debouncing, flow
//! metering, software PWM for the heater, LED blink scheduling and a PID
//! temperature controller, each written as a state machine that the firmware's
//! tasks drive with edges, ticks and sensor readings.
pub mod arith;
pub mod buttons;
pub mod flow_meter;
pub mod heater;
pub mod leds;
pub mod solenoid;
pub mod temperature;
pub mod temperature_pid;
pub mod time;
