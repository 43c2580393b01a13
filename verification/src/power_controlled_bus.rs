//! An active low supply switch.

use vstd::prelude::*;

verus! {

/// Active low pin for driving pulled high P-MOSFETS; holds the level the
/// pin is set to (true = high).
pub struct ActiveLowPin {
    pin: bool,
}

impl ActiveLowPin {
    /// The level the pin is set to (true = high).
    pub closed spec fn level(&self) -> bool {
        self.pin
    }

    /// The switch of a pin that is at the level `pin` now.
    pub fn from_pin(pin: bool) -> (r: Self)
        ensures
            r.level() == pin,
    {
        Self { pin }
    }

    /// Powers the load: drives the pin low.
    pub fn set_active(&mut self)
        ensures
            final(self).level() == false,
    {
        self.pin = false;
    }

    /// Cuts the load: drives the pin high.
    pub fn set_notactive(&mut self)
        ensures
            final(self).level() == true,
    {
        self.pin = true;
    }

    pub fn toggle(&mut self)
        ensures
            final(self).level() == !old(self).level(),
    {
        self.pin = !self.pin;
    }

    /// The level the pin is set to (true = high).
    pub fn is_high(&self) -> (r: bool)
        ensures
            r == self.level(),
    {
        self.pin
    }
}

} // verus!
