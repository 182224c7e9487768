use vstd::prelude::*;

pub mod browser;
pub mod mock;
pub mod null;

verus! {

/// What a keyboard holds: the key that is down, and which key each key code
/// of the host stands for.
#[verifier::ext_equal]
pub ghost struct Keys {
    /// The key that is down, or 0 for none.
    pub pressed: u8,
    /// The key that a key code latches.
    pub key_of: spec_fn(u8) -> u8,
}

impl Keys {
    /// The same keyboard once a key code was handed to it.
    pub open spec fn latch(self, code: u8) -> Keys {
        Keys { pressed: (self.key_of)(code), ..self }
    }

    /// The same keyboard with no key down.
    pub open spec fn released(self) -> Keys {
        Keys { pressed: 0, ..self }
    }
}

/// A latch that holds the key that is down, if any.
///
/// The contracts bind every implementation, including those of a host that
/// were not verified.
pub trait Keyboard {
    /// What the keyboard holds.
    spec fn keys(&self) -> Keys;

    /// One-time setup. Which key a code stands for is as before.
    fn initialize(&mut self)
        ensures
            final(self).keys().key_of == old(self).keys().key_of,
    ;

    /// Latches the key that a key code stands for. Code 0 releases the latch,
    /// whatever the keyboard.
    fn set_key(&mut self, key: u8)
        ensures
            final(self).keys() == old(self).keys().latch(key),
            key == 0 ==> final(self).keys().pressed == 0,
    ;

    /// Reads the latch, which stays as it is.
    fn get_key(&mut self) -> (key: u8)
        ensures
            key == old(self).keys().pressed,
            final(self).keys() == old(self).keys(),
    ;
}

} // verus!
