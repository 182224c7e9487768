use vstd::prelude::*;

verus! {

/// One 16-bit opcode together with the operand fields cut out of it.
///
/// The fields are public so that a dispatcher can match on them; a value that
/// was not produced by [`Instruction::new`] may be inconsistent, which is what
/// [`Instruction::wf`] rules out.
#[derive(Clone, Copy, Debug)]
pub struct Instruction {
    /// The opcode as it was fetched.
    pub raw_bytes: u16,
    /// Bits 15..12: the opcode family.
    pub first: u8,
    /// Bits 11..0: an address.
    pub nnn: u16,
    /// Bits 7..0: an immediate byte.
    pub kk: u8,
    /// Bits 11..8: a register index.
    pub x: usize,
    /// Bits 7..4: a register index.
    pub y: usize,
    /// Bits 3..0: a nibble.
    pub n: u8,
}

/// The instruction that a raw opcode decodes to. None of the casts truncates:
/// every field is masked or shifted down to its width first.
pub open spec fn decode(bytes: u16) -> Instruction {
    Instruction {
        raw_bytes: bytes,
        first: (bytes >> 12) as u8,
        nnn: bytes & 0xfff,
        kk: (bytes & 0xff) as u8,
        x: ((bytes >> 8) & 0xf) as usize,
        y: ((bytes >> 4) & 0xf) as usize,
        n: (bytes & 0xf) as u8,
    }
}

/// The 16-bit word that two consecutive bytes form, most significant first.
pub open spec fn big_endian_word(high: u8, low: u8) -> u16 {
    (high as u16) << 8 | (low as u16)
}

impl Instruction {
    /// The fields are those of the raw opcode.
    pub open spec fn wf(&self) -> bool {
        *self == decode(self.raw_bytes)
    }

    /// The opcode selects an entry of the dispatch table: the family alone for
    /// most, the family and the immediate byte for families 0, E and F, the
    /// family and the low nibble for family 8.
    pub open spec fn known(&self) -> bool {
        if self.first == 0x0 {
            self.kk == 0xe0 || self.kk == 0xee
        } else if self.first == 0x8 {
            self.n == 0x0 || self.n == 0x2 || self.n == 0x3 || self.n == 0x4 || self.n == 0x5
                || self.n == 0x6
        } else if self.first == 0xe {
            self.kk == 0x9e || self.kk == 0xa1
        } else if self.first == 0xf {
            self.kk == 0x07 || self.kk == 0x0a || self.kk == 0x15 || self.kk == 0x18 || self.kk
                == 0x1e || self.kk == 0x29 || self.kk == 0x33 || self.kk == 0x55 || self.kk == 0x65
        } else {
            self.first == 0x1 || self.first == 0x2 || self.first == 0x3 || self.first == 0x4
                || self.first == 0x6 || self.first == 0x7 || self.first == 0xa || self.first == 0xc
                || self.first == 0xd
        }
    }

    /// Decodes a raw opcode. Total: every 16-bit value decodes.
    pub fn new(bytes: u16) -> (instruction: Instruction)
        ensures
            instruction == decode(bytes),
            instruction.wf(),
            instruction.raw_bytes == bytes,
            instruction.first == bytes >> 12,
            instruction.nnn == bytes & 0xfff,
            instruction.kk == bytes & 0xff,
            instruction.x == (bytes >> 8) & 0xf,
            instruction.y == (bytes >> 4) & 0xf,
            instruction.n == bytes & 0xf,
    {
        proof {
            lemma_decode_fields(bytes);
        }
        assert((bytes >> 12) & 0xf == bytes >> 12) by (bit_vector);
        Instruction {
            raw_bytes: bytes,
            first: (bytes >> 12 & 0xf) as u8,
            nnn: bytes & 0xfff,
            kk: (bytes & 0xff) as u8,
            x: (bytes >> 8 & 0xf) as usize,
            y: (bytes >> 4 & 0xf) as usize,
            n: (bytes & 0xf) as u8,
        }
    }
}

/// The fields of a decoded opcode are exactly the bit runs they are named
/// after, and each lies within its width: the family, both register indices
/// and the nibble are below 16, the address is below 4096.
pub proof fn lemma_decode_fields(bytes: u16)
    ensures
        decode(bytes).raw_bytes == bytes,
        decode(bytes).first == bytes >> 12,
        decode(bytes).nnn == bytes & 0xfff,
        decode(bytes).kk == bytes & 0xff,
        decode(bytes).x == (bytes >> 8) & 0xf,
        decode(bytes).y == (bytes >> 4) & 0xf,
        decode(bytes).n == bytes & 0xf,
        decode(bytes).first < 16,
        decode(bytes).nnn < 4096,
        decode(bytes).x < 16,
        decode(bytes).y < 16,
        decode(bytes).n < 16,
{
    assert(bytes >> 12 < 16) by (bit_vector);
    assert(bytes & 0xfff < 4096) by (bit_vector);
    assert(bytes & 0xff < 256) by (bit_vector);
    assert((bytes >> 8) & 0xf < 16) by (bit_vector);
    assert((bytes >> 4) & 0xf < 16) by (bit_vector);
    assert(bytes & 0xf < 16) by (bit_vector);
}

/// Decoding in arithmetic: the fields are the base-16 digits of the opcode.
pub proof fn lemma_decode_digits(bytes: u16)
    ensures
        decode(bytes).first == bytes / 4096,
        decode(bytes).nnn == bytes % 4096,
        decode(bytes).kk == bytes % 256,
        decode(bytes).x == (bytes / 256) % 16,
        decode(bytes).y == (bytes / 16) % 16,
        decode(bytes).n == bytes % 16,
{
    lemma_decode_fields(bytes);
    assert(bytes >> 12 == bytes / 4096) by (bit_vector);
    assert(bytes & 0xfff == bytes % 4096) by (bit_vector);
    assert(bytes & 0xff == bytes % 256) by (bit_vector);
    assert((bytes >> 8) & 0xf == (bytes / 256) % 16) by (bit_vector);
    assert((bytes >> 4) & 0xf == (bytes / 16) % 16) by (bit_vector);
    assert(bytes & 0xf == bytes % 16) by (bit_vector);
}

/// The word of two bytes in arithmetic: the high byte counts 256-fold. The
/// bytes can be had back from the word.
pub proof fn lemma_big_endian_word(high: u8, low: u8)
    ensures
        big_endian_word(high, low) == high * 256 + low,
        big_endian_word(high, low) >> 8 == high,
        big_endian_word(high, low) & 0xff == low,
{
    assert(((high as u16) << 8 | (low as u16)) == high * 256 + low) by (bit_vector);
    assert(((high as u16) << 8 | (low as u16)) >> 8 == high) by (bit_vector);
    assert(((high as u16) << 8 | (low as u16)) & 0xff == low) by (bit_vector);
}

} // verus!
