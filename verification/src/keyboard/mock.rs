use crate::keyboard::{Keyboard, Keys};
use vstd::prelude::*;

verus! {

/// A latch that holds whatever code it is given, for tests.
pub struct MockKeyboard {
    pub key_pressed: u8,
}

impl Default for MockKeyboard {
    fn default() -> (keyboard: MockKeyboard)
        ensures
            keyboard.keys() == (Keys { pressed: 0, key_of: |code: u8| code }),
    {
        MockKeyboard { key_pressed: 0 }
    }
}

impl Keyboard for MockKeyboard {
    open spec fn keys(&self) -> Keys {
        Keys { pressed: self.key_pressed, key_of: |code: u8| code }
    }

    fn initialize(&mut self)
        ensures
            final(self).keys().pressed == 0,
    {
        self.key_pressed = 0;
    }

    fn set_key(&mut self, key: u8) {
        self.key_pressed = key;
    }

    fn get_key(&mut self) -> (key: u8) {
        self.key_pressed
    }
}

} // verus!
