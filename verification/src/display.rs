use vstd::prelude::*;

pub mod mock;
pub mod null;

verus! {

/// Width of the standard screen, in pixels.
pub const CHIP8_WIDTH: usize = 64;

/// Height of the standard screen, in pixels.
pub const CHIP8_HEIGHT: usize = 32;

/// What a display shows: its size and the set of the pixels that are lit,
/// each named by its column and its row.
#[verifier::ext_equal]
pub ghost struct Bitmap {
    pub width: nat,
    pub height: nat,
    pub lit: Set<(int, int)>,
}

/// Whether a sprite has a set bit in row `row`, column `col`. A sprite is a
/// sequence of rows of eight pixels, one byte each, the leftmost pixel in the
/// most significant bit.
pub open spec fn sprite_bit(sprite: Seq<u8>, row: int, col: int) -> bool {
    &&& 0 <= row < sprite.len()
    &&& 0 <= col < 8
    &&& sprite[row] & (0x80u8 >> (col as u8)) != 0
}

impl Bitmap {
    /// The bitmap of the given size with no pixel lit.
    pub open spec fn blank(width: nat, height: nat) -> Bitmap {
        Bitmap { width, height, lit: Set::empty() }
    }

    /// The pixel lies on the screen.
    pub open spec fn inside(self, x: int, y: int) -> bool {
        0 <= x < self.width && 0 <= y < self.height
    }

    /// The same screen with every pixel off.
    pub open spec fn cleared(self) -> Bitmap {
        Bitmap::blank(self.width, self.height)
    }

    /// The same screen with one pixel switched on or off.
    pub open spec fn with_pixel(self, x: int, y: int, on: bool) -> Bitmap {
        Bitmap {
            lit: if on {
                self.lit.insert((x, y))
            } else {
                self.lit.remove((x, y))
            },
            ..self
        }
    }

    /// A sprite drawn with its top left corner at `(x0, y0)` has a set bit on
    /// the pixel `(x, y)`, and that pixel lies on the screen. Set bits that
    /// would land beyond an edge cover nothing: the sprite is clipped.
    pub open spec fn covers(self, sprite: Seq<u8>, x0: int, y0: int, x: int, y: int) -> bool {
        self.inside(x, y) && sprite_bit(sprite, y - y0, x - x0)
    }

    /// The sprite, so placed, has at least one set bit on the screen.
    pub open spec fn shows(self, sprite: Seq<u8>, x0: int, y0: int) -> bool {
        exists|x: int, y: int| #[trigger] self.covers(sprite, x0, y0, x, y)
    }

    /// The screen after the sprite was drawn onto it: every pixel that the
    /// sprite covers is inverted, every other pixel is as before.
    pub open spec fn blit(self, sprite: Seq<u8>, x0: int, y0: int) -> Bitmap {
        Bitmap {
            lit: Set::new(
                |p: (int, int)| self.lit.contains(p) != self.covers(sprite, x0, y0, p.0, p.1),
            ),
            ..self
        }
    }

    /// Drawing the sprite would switch a lit pixel off.
    pub open spec fn collides(self, sprite: Seq<u8>, x0: int, y0: int) -> bool {
        exists|x: int, y: int|
            self.lit.contains((x, y)) && #[trigger] self.covers(sprite, x0, y0, x, y)
    }
}

/// A screen of pixels that can be read and written one at a time.
///
/// `bitmap` is what the screen shows. The contracts bind every
/// implementation, including those of a host that were not verified.
pub trait Display {
    /// What the screen shows.
    spec fn bitmap(&self) -> Bitmap;

    /// Switches every pixel off.
    fn clear(&mut self)
        ensures
            final(self).bitmap() == old(self).bitmap().cleared(),
    ;

    fn get_width(&self) -> (width: usize)
        ensures
            width == self.bitmap().width,
    ;

    fn get_height(&self) -> (height: usize)
        ensures
            height == self.bitmap().height,
    ;

    /// Switches one pixel on or off. `pixel_size` is a hint to the renderer,
    /// the edge of the square it paints; it has no effect on the bitmap.
    fn draw_pixel(&mut self, x: usize, y: usize, pixel_size: u32, turn_on: bool)
        requires
            old(self).bitmap().inside(x as int, y as int),
        ensures
            final(self).bitmap() == old(self).bitmap().with_pixel(x as int, y as int, turn_on),
    ;

    fn get_pixel(&self, x: usize, y: usize) -> (on: bool)
        requires
            self.bitmap().inside(x as int, y as int),
        ensures
            on == self.bitmap().lit.contains((x as int, y as int)),
    ;

    /// One-time setup of the renderer. The bitmap is as before.
    fn initialize(&mut self)
        ensures
            final(self).bitmap() == old(self).bitmap(),
    ;
}

/// The bitmap that a row-major buffer of the standard size holds, one byte to
/// a pixel: a pixel is lit where its byte is 1.
pub open spec fn vram_bitmap(vram: Seq<u8>) -> Bitmap {
    Bitmap {
        width: 64,
        height: 32,
        lit: Set::new(
            |p: (int, int)| 0 <= p.0 < 64 && 0 <= p.1 < 32 && vram[p.1 * 64 + p.0] == 1,
        ),
    }
}

/// Writing one byte of the buffer switches the one pixel it stands for.
pub proof fn lemma_vram_write(vram: Seq<u8>, x: int, y: int, on: bool)
    requires
        vram.len() == 2048,
        0 <= x < 64,
        0 <= y < 32,
    ensures
        vram_bitmap(vram.update(y * 64 + x, if on { 1u8 } else { 0u8 })) == vram_bitmap(
            vram,
        ).with_pixel(x, y, on),
{
    let after = vram.update(y * 64 + x, if on { 1u8 } else { 0u8 });
    assert forall|p: (int, int)|
        vram_bitmap(after).lit.contains(p) == vram_bitmap(vram).with_pixel(x, y, on).lit.contains(
            p,
        ) by {
        // two pixels share a byte of the buffer only if they are one pixel
        if 0 <= p.0 < 64 && 0 <= p.1 < 32 && p.1 * 64 + p.0 == y * 64 + x {
            assert(p == (x, y));
        }
    }
}

/// A buffer of zeros shows the blank screen.
pub proof fn lemma_vram_zero(vram: Seq<u8>)
    requires
        forall|i: int| 0 <= i < 2048 ==> vram[i] == 0,
    ensures
        vram_bitmap(vram) == Bitmap::blank(64, 32),
{
    assert(vram_bitmap(vram).lit =~= Set::<(int, int)>::empty());
}

/// Drawing a sprite twice at the same place leaves the screen as it was
/// before the first draw.
pub proof fn lemma_blit_twice_restores(b: Bitmap, sprite: Seq<u8>, x0: int, y0: int)
    ensures
        b.blit(sprite, x0, y0).blit(sprite, x0, y0) == b,
{
    // the size stays, so both draws invert the same pixels
    assert(b.blit(sprite, x0, y0).blit(sprite, x0, y0).lit =~= b.lit);
}

/// Where none of a sprite's pixels is lit beforehand, as on a blank screen,
/// the first draw lights all of them without a collision. The second draw at
/// the same place turns all of them off again, and it collides exactly if the
/// sprite has a set bit on the screen at all: an empty sprite, or one wholly
/// beyond an edge, collides with nothing.
pub proof fn lemma_redraw_erases(b: Bitmap, sprite: Seq<u8>, x0: int, y0: int)
    requires
        !b.collides(sprite, x0, y0),
    ensures
        forall|x: int, y: int| #[trigger]
            b.covers(sprite, x0, y0, x, y) ==> b.blit(sprite, x0, y0).lit.contains((x, y)),
        b.blit(sprite, x0, y0).collides(sprite, x0, y0) <==> b.shows(sprite, x0, y0),
        forall|x: int, y: int| #[trigger]
            b.covers(sprite, x0, y0, x, y) ==> !b.blit(sprite, x0, y0).blit(
                sprite,
                x0,
                y0,
            ).lit.contains((x, y)),
        b.blit(sprite, x0, y0).blit(sprite, x0, y0) == b,
{
    let once = b.blit(sprite, x0, y0);
    lemma_blit_twice_restores(b, sprite, x0, y0);
    if b.shows(sprite, x0, y0) {
        // a pixel of the sprite is lit after the first draw
        let (x, y) = choose|x: int, y: int| #[trigger] b.covers(sprite, x0, y0, x, y);
        assert(once.lit.contains((x, y)) && once.covers(sprite, x0, y0, x, y));
    }
    if once.collides(sprite, x0, y0) {
        let (x, y) = choose|x: int, y: int|
            once.lit.contains((x, y)) && #[trigger] once.covers(sprite, x0, y0, x, y);
        assert(b.covers(sprite, x0, y0, x, y));
    }
}

/// Two sprites that share no pixel, drawn one after the other onto a screen
/// where none of their pixels is lit, as on a blank screen: neither draw
/// collides.
pub proof fn lemma_disjoint_sprites_never_collide(
    b: Bitmap,
    first: Seq<u8>,
    x1: int,
    y1: int,
    second: Seq<u8>,
    x2: int,
    y2: int,
)
    requires
        !b.collides(first, x1, y1),
        !b.collides(second, x2, y2),
        forall|x: int, y: int|
            !(#[trigger] b.covers(first, x1, y1, x, y) && #[trigger] b.covers(
                second,
                x2,
                y2,
                x,
                y,
            )),
    ensures
        !b.blit(first, x1, y1).collides(second, x2, y2),
{
    let once = b.blit(first, x1, y1);
    if once.collides(second, x2, y2) {
        // the pixel would be one of the second sprite that the first has lit
        let (x, y) = choose|x: int, y: int|
            once.lit.contains((x, y)) && #[trigger] once.covers(second, x2, y2, x, y);
        assert(b.covers(second, x2, y2, x, y));
        assert(!b.covers(first, x1, y1, x, y));
    }
}

/// Nothing collides on a blank screen.
pub proof fn lemma_blank_never_collides(
    width: nat,
    height: nat,
    sprite: Seq<u8>,
    x0: int,
    y0: int,
)
    ensures
        !Bitmap::blank(width, height).collides(sprite, x0, y0),
{
}

} // verus!
