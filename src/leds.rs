//! The status LEDs: the states requested for them, and the blink schedule of
//! each one.
use vstd::prelude::*;

verus! {

/// Tick period of an LED that is not blinking, in milliseconds (one hour).
pub const IDLE_TICK_MS: u64 = 3600000;

/// The state of an LED.
#[derive(Clone, Copy, Debug, PartialEq, Eq, Structural)]
pub enum LEDState {
    /// LED is on.
    On,
    /// LED is off.
    Off,
    /// LED is blinking: it toggles this many times per second.
    Blinking(u8),
}

/// All the controllable LEDs.
#[derive(Clone, Copy, Debug, PartialEq, Eq, Structural)]
pub enum LEDKind {
    /// The one cup button's LED.
    OneCup,
    /// The two cups button's LED.
    TwoCup,
}

/// The states requested for all controllable LEDs of the machine.
pub struct LEDs {
    one_cup: LEDState,
    two_cup: LEDState,
}

impl LEDs {
    /// The state requested for `led`.
    pub closed spec fn spec_state(self, led: LEDKind) -> LEDState {
        match led {
            LEDKind::OneCup => self.one_cup,
            LEDKind::TwoCup => self.two_cup,
        }
    }

    /// All LEDs off.
    pub fn new() -> (r: LEDs)
        ensures
            forall|k: LEDKind| #[trigger] r.spec_state(k) == LEDState::Off,
    {
        LEDs { one_cup: LEDState::Off, two_cup: LEDState::Off }
    }

    /// Turn all LEDs off.
    pub fn off(&mut self)
        ensures
            forall|k: LEDKind| #[trigger] final(self).spec_state(k) == LEDState::Off,
    {
        self.set_state_all(LEDState::Off);
    }

    /// Set all LEDs to `new_state`.
    pub fn set_state_all(&mut self, new_state: LEDState)
        ensures
            forall|k: LEDKind| #[trigger] final(self).spec_state(k) == new_state,
    {
        self.one_cup = new_state;
        self.two_cup = new_state;
    }

    /// Set `led` to `new_state`; the other LED keeps its state.
    pub fn set_state(&mut self, led: LEDKind, new_state: LEDState)
        ensures
            final(self).spec_state(led) == new_state,
            forall|k: LEDKind| k != led ==> #[trigger] final(self).spec_state(k) == old(self).spec_state(k),
    {
        match led {
            LEDKind::OneCup => self.one_cup = new_state,
            LEDKind::TwoCup => self.two_cup = new_state,
        }
    }

    /// The state requested for `led`.
    pub fn state(&self, led: LEDKind) -> (r: LEDState)
        ensures
            r == self.spec_state(led),
    {
        match led {
            LEDKind::OneCup => self.one_cup,
            LEDKind::TwoCup => self.two_cup,
        }
    }
}

/// The tick period, in milliseconds, of an LED blinking `frequency` times per
/// second; a frequency of zero never toggles and ticks as an idle LED does.
pub open spec fn blink_tick_ms(frequency: u8) -> u64 {
    if frequency == 0 {
        IDLE_TICK_MS
    } else {
        (1000int / frequency as int) as u64
    }
}

/// The schedule of one LED: whether it is lit, whether it blinks, and how
/// often its ticker fires.
pub struct LEDBlinker {
    lit: bool,
    blinking: bool,
    tick_ms: u64,
}

impl LEDBlinker {
    /// Whether the LED is lit.
    pub closed spec fn spec_lit(self) -> bool {
        self.lit
    }

    /// Whether each tick toggles the LED.
    pub closed spec fn spec_blinking(self) -> bool {
        self.blinking
    }

    /// The period of the LED's ticker, in milliseconds.
    pub closed spec fn spec_tick_ms(self) -> u64 {
        self.tick_ms
    }

    /// An LED that is off and idle.
    pub fn new() -> (r: LEDBlinker)
        ensures
            !r.spec_lit(),
            !r.spec_blinking(),
            r.spec_tick_ms() == IDLE_TICK_MS,
    {
        LEDBlinker { lit: false, blinking: false, tick_ms: IDLE_TICK_MS }
    }

    /// Applies a requested state. `On` and `Off` set the level and stop any
    /// blinking; `Blinking(f)` keeps the level and, for `f > 0`, toggles it
    /// `f` times per second from then on.
    pub fn on_command(&mut self, new_state: LEDState)
        ensures
            match new_state {
                LEDState::On => final(self).spec_lit() && !final(self).spec_blinking()
                    && final(self).spec_tick_ms() == IDLE_TICK_MS,
                LEDState::Off => !final(self).spec_lit() && !final(self).spec_blinking()
                    && final(self).spec_tick_ms() == IDLE_TICK_MS,
                LEDState::Blinking(f) => final(self).spec_lit() == old(self).spec_lit()
                    && final(self).spec_blinking() == (f > 0)
                    && final(self).spec_tick_ms() == blink_tick_ms(f),
            },
    {
        match new_state {
            LEDState::On => {
                self.lit = true;
                self.blinking = false;
                self.tick_ms = IDLE_TICK_MS;
            },
            LEDState::Off => {
                self.lit = false;
                self.blinking = false;
                self.tick_ms = IDLE_TICK_MS;
            },
            LEDState::Blinking(frequency) => {
                if frequency == 0 {
                    self.blinking = false;
                    self.tick_ms = IDLE_TICK_MS;
                } else {
                    self.blinking = true;
                    self.tick_ms = 1000 / frequency as u64;
                }
            },
        }
    }

    /// Handles a tick of the LED's ticker: a blinking LED toggles.
    pub fn on_tick(&mut self)
        ensures
            final(self).spec_lit() == (old(self).spec_lit() != old(self).spec_blinking()),
            final(self).spec_blinking() == old(self).spec_blinking(),
            final(self).spec_tick_ms() == old(self).spec_tick_ms(),
    {
        if self.blinking {
            self.lit = !self.lit;
        }
    }

    /// Whether the LED is lit.
    pub fn is_on(&self) -> (r: bool)
        ensures
            r == self.spec_lit(),
    {
        self.lit
    }

    /// The period of the LED's ticker, in milliseconds.
    pub fn tick_ms(&self) -> (r: u64)
        ensures
            r == self.spec_tick_ms(),
    {
        self.tick_ms
    }
}

} // verus!
