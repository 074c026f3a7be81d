//! The solenoid valve that sends the water either to the shower head or to
//! the steam wand.
use vstd::prelude::*;

verus! {

/// The ways water can be dispensed.
#[derive(Clone, Copy, Debug, PartialEq, Eq, Structural)]
pub enum WaterOutputKind {
    /// Via the shower head.
    Shower,
    /// Via the steam wand.
    SteamWand,
}

/// The level of the valve's control line for `output`: high for the steam wand.
pub open spec fn line_high_for(output: WaterOutputKind) -> bool {
    output == WaterOutputKind::SteamWand
}

/// The position of the valve.
pub struct Solenoid {
    output: WaterOutputKind,
}

impl Solenoid {
    /// Where the water goes.
    pub closed spec fn spec_output(self) -> WaterOutputKind {
        self.output
    }

    /// A valve in its default position, the shower.
    pub fn new() -> (r: Solenoid)
        ensures
            r.spec_output() == WaterOutputKind::Shower,
    {
        Solenoid { output: WaterOutputKind::Shower }
    }

    /// Switch the water to be dispensed via `output`.
    pub fn switch(&mut self, output: WaterOutputKind)
        ensures
            final(self).spec_output() == output,
    {
        match output {
            WaterOutputKind::Shower => self.switch_to_shower(),
            WaterOutputKind::SteamWand => self.switch_to_steam_wand(),
        }
    }

    /// Dispense the water via the shower. This is the default.
    pub fn switch_to_shower(&mut self)
        ensures
            final(self).spec_output() == WaterOutputKind::Shower,
    {
        self.output = WaterOutputKind::Shower;
    }

    /// Dispense the water (steam) via the steam wand.
    pub fn switch_to_steam_wand(&mut self)
        ensures
            final(self).spec_output() == WaterOutputKind::SteamWand,
    {
        self.output = WaterOutputKind::SteamWand;
    }

    /// Where the water goes.
    pub fn output(&self) -> (r: WaterOutputKind)
        ensures
            r == self.spec_output(),
    {
        self.output
    }

    /// Whether the valve's control line is to be driven high.
    pub fn is_line_high(&self) -> (r: bool)
        ensures
            r == line_high_for(self.spec_output()),
    {
        match self.output {
            WaterOutputKind::Shower => false,
            WaterOutputKind::SteamWand => true,
        }
    }
}

} // verus!
