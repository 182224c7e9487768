use crate::display::{
    lemma_vram_write, lemma_vram_zero, vram_bitmap, Bitmap, Display, CHIP8_HEIGHT, CHIP8_WIDTH,
};
use vstd::prelude::*;

verus! {

/// A screen held in memory that also remembers whether it was ever cleared.
pub struct NullDisplay {
    pub cleared: bool,
    pub vram: [u8; 2048],
}

impl Default for NullDisplay {
    fn default() -> (display: NullDisplay)
        ensures
            display.bitmap() == Bitmap::blank(64, 32),
            !display.cleared,
    {
        let display = NullDisplay { cleared: false, vram: [0; 2048] };
        proof {
            lemma_vram_zero(display.vram@);
        }
        display
    }
}

impl Display for NullDisplay {
    open spec fn bitmap(&self) -> Bitmap {
        vram_bitmap(self.vram@)
    }

    fn clear(&mut self)
        ensures
            final(self).cleared,
    {
        self.cleared = true;
        self.vram = [0; 2048];
        proof {
            lemma_vram_zero(self.vram@);
        }
    }

    fn get_width(&self) -> (width: usize) {
        CHIP8_WIDTH
    }

    fn get_height(&self) -> (height: usize) {
        CHIP8_HEIGHT
    }

    fn draw_pixel(&mut self, x: usize, y: usize, _pixel_size: u32, turn_on: bool)
        ensures
            final(self).cleared == old(self).cleared,
    {
        proof {
            lemma_vram_write(self.vram@, x as int, y as int, turn_on);
        }
        if turn_on {
            self.vram[y * self.get_width() + x] = 1;
        } else {
            self.vram[y * self.get_width() + x] = 0;
        }
    }

    fn get_pixel(&self, x: usize, y: usize) -> (on: bool) {
        self.vram[y * self.get_width() + x] == 1
    }

    fn initialize(&mut self)
        ensures
            final(self).cleared == old(self).cleared,
    {
    }
}

} // verus!
