use crate::keyboard::{Keyboard, Keys};
use vstd::prelude::*;

verus! {

/// The key that a browser key code stands for: the digit keys `1` to `9`
/// (codes 49 to 57) are the keys 1 to 9, the letter keys `A` to `F` (codes 65
/// to 70) are the keys 0xA to 0xF, and every other code releases the latch.
pub open spec fn browser_key(code: u8) -> u8 {
    if 49 <= code <= 57 {
        (code - 48) as u8
    } else if 65 <= code <= 70 {
        (code - 55) as u8
    } else {
        0
    }
}

/// A latch fed with the key codes of a browser's keyboard events.
pub struct BrowserKeyboard {
    pub key_pressed: u8,
}

impl Default for BrowserKeyboard {
    fn default() -> (keyboard: BrowserKeyboard)
        ensures
            keyboard.keys() == (Keys { pressed: 0, key_of: |code: u8| browser_key(code) }),
    {
        BrowserKeyboard { key_pressed: 0 }
    }
}

impl Keyboard for BrowserKeyboard {
    open spec fn keys(&self) -> Keys {
        Keys { pressed: self.key_pressed, key_of: |code: u8| browser_key(code) }
    }

    fn initialize(&mut self)
        ensures
            final(self).keys() == old(self).keys(),
    {
    }

    fn set_key(&mut self, key: u8) {
        match key {
            // 1 to 9
            49 => self.key_pressed = 0x1,
            50 => self.key_pressed = 0x2,
            51 => self.key_pressed = 0x3,
            52 => self.key_pressed = 0x4,
            53 => self.key_pressed = 0x5,
            54 => self.key_pressed = 0x6,
            55 => self.key_pressed = 0x7,
            56 => self.key_pressed = 0x8,
            57 => self.key_pressed = 0x9,
            // a to f
            65 => self.key_pressed = 0xa,
            66 => self.key_pressed = 0xb,
            67 => self.key_pressed = 0xc,
            68 => self.key_pressed = 0xd,
            69 => self.key_pressed = 0xe,
            70 => self.key_pressed = 0xf,
            // anything else releases the key
            _ => self.key_pressed = 0x0,
        }
    }

    fn get_key(&mut self) -> (key: u8) {
        self.key_pressed
    }
}

} // verus!
