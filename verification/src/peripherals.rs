//! Cosmetic and contact peripherals: the parts of their behaviour that
//! are plain logic.
//!
//! The GPIO work itself (pins, PWM pulses, blink timing) stays outside
//! the library; here live the foot-contact encoding, the projector's
//! toggle state, and the mock used without hardware.

use vstd::prelude::*;

verus! {

/// Observation value of a foot in contact, micro-units.
pub const CONTACT_VALUE: i64 = 1_000_000;

/// Encode the two foot-contact levels for the observation vector: one
/// unit for a foot in contact, zero otherwise, left then right.
pub fn contacts_to_values(left: bool, right: bool) -> (r: [i64; 2])
    ensures
        r@[0] == (if left {
            CONTACT_VALUE as int
        } else {
            0
        }),
        r@[1] == (if right {
            CONTACT_VALUE as int
        } else {
            0
        }),
{
    let l: i64 = if left {
        CONTACT_VALUE
    } else {
        0
    };
    let rv: i64 = if right {
        CONTACT_VALUE
    } else {
        0
    };
    [l, rv]
}

/// The projector's on/off state; the caller drives the pin to match
/// after every switch.
pub struct ProjectorState {
    /// Whether the projector is on.
    pub is_on: bool,
}

impl ProjectorState {
    /// Starts off.
    pub fn new() -> (r: Self)
        ensures
            !r.is_on,
    {
        ProjectorState { is_on: false }
    }

    /// Toggle and report the new state.
    pub fn switch(&mut self) -> (r: bool)
        ensures
            final(self).is_on == !old(self).is_on,
            r == final(self).is_on,
    {
        self.is_on = !self.is_on;
        self.is_on
    }
}

/// Mock feet contacts that always report no contact.
pub struct MockFeetContacts;

impl MockFeetContacts {
    /// Both feet read free.
    pub fn get(&self) -> (r: [i64; 2])
        ensures
            r@[0] == 0 && r@[1] == 0,
    {
        [0, 0]
    }
}

} // verus!
