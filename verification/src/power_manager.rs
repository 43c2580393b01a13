//! Power switching of the board's modules. Each module's supply is
//! switched by an output pin; with `active_low` a module is powered while
//! its pin is low.

use vstd::prelude::*;

verus! {

/// The levels of the three supply pins (true = high) and their polarity.
pub struct PowerManager {
    rf_vcc_pin: bool,
    geiger_vcc_pin: bool,
    i2c_vcc_pin: bool,
    active_low: bool,
}

/// Whether a module whose supply pin is at `level` is powered.
pub open spec fn is_powered(level: bool, active_low: bool) -> bool {
    level != active_low
}

impl PowerManager {
    /// (rf pin level, geiger pin level, i2c pin level, active_low).
    pub closed spec fn model(&self) -> (bool, bool, bool, bool) {
        (self.rf_vcc_pin, self.geiger_vcc_pin, self.i2c_vcc_pin, self.active_low)
    }

    /// A manager of pins that are at the given levels now.
    pub fn new(rf_vcc_pin: bool, geiger_vcc_pin: bool, i2c_vcc_pin: bool, active_low: bool) -> (r:
        Self)
        ensures
            r.model() == (rf_vcc_pin, geiger_vcc_pin, i2c_vcc_pin, active_low),
    {
        Self { rf_vcc_pin, geiger_vcc_pin, i2c_vcc_pin, active_low }
    }

    /// Switches the radio off; the other modules keep their supply.
    pub fn deactivate_power_hungry(&mut self)
        ensures
            final(self).model() == (
                false ^ old(self).model().3,
                old(self).model().1,
                old(self).model().2,
                old(self).model().3,
            ),
            !is_powered(final(self).model().0, final(self).model().3),
    {
        let state = false ^ self.active_low;
        self.rf_vcc_pin = state;
    }

    /// Switches the radio on; the other modules keep their supply.
    pub fn activate_power_hungry(&mut self)
        ensures
            final(self).model() == (
                true ^ old(self).model().3,
                old(self).model().1,
                old(self).model().2,
                old(self).model().3,
            ),
            is_powered(final(self).model().0, final(self).model().3),
    {
        let state = true ^ self.active_low;
        self.rf_vcc_pin = state;
    }

    /// Switches every module off.
    pub fn deactivate_all(&mut self)
        ensures
            final(self).model() == (
                false ^ old(self).model().3,
                false ^ old(self).model().3,
                false ^ old(self).model().3,
                old(self).model().3,
            ),
            !is_powered(final(self).model().0, final(self).model().3),
            !is_powered(final(self).model().1, final(self).model().3),
            !is_powered(final(self).model().2, final(self).model().3),
    {
        self.set_all_state(false ^ self.active_low);
    }

    /// Switches every module on.
    pub fn activate_all(&mut self)
        ensures
            final(self).model() == (
                true ^ old(self).model().3,
                true ^ old(self).model().3,
                true ^ old(self).model().3,
                old(self).model().3,
            ),
            is_powered(final(self).model().0, final(self).model().3),
            is_powered(final(self).model().1, final(self).model().3),
            is_powered(final(self).model().2, final(self).model().3),
    {
        self.set_all_state(true ^ self.active_low);
    }

    fn set_all_state(&mut self, state: bool)
        ensures
            final(self).model() == (state, state, state, old(self).model().3),
    {
        self.rf_vcc_pin = state;
        self.geiger_vcc_pin = state;
        self.i2c_vcc_pin = state;
    }

    /// The level the radio supply pin is set to (true = high).
    pub fn rf_vcc_level(&self) -> (r: bool)
        ensures
            r == self.model().0,
    {
        self.rf_vcc_pin
    }

    /// The level the geiger counter supply pin is set to (true = high).
    pub fn geiger_vcc_level(&self) -> (r: bool)
        ensures
            r == self.model().1,
    {
        self.geiger_vcc_pin
    }

    /// The level the I2C bus supply pin is set to (true = high).
    pub fn i2c_vcc_level(&self) -> (r: bool)
        ensures
            r == self.model().2,
    {
        self.i2c_vcc_pin
    }
}

} // verus!
