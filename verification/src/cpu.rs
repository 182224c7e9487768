use crate::audio::AudioSource;
use crate::chip8::{BusView, Chip8Bus, MachineView};
use crate::display::{Bitmap, Display};
use crate::error::UnknownInstructionError;
use crate::instruction::{lemma_decode_fields, Instruction};
use crate::keyboard::Keyboard;
use rand::{thread_rng, Rng};
use vstd::prelude::*;

verus! {

/// The processor: sixteen 8-bit registers `V0` to `VF`, the address register
/// `I`, the program counter, a stack of sixteen return addresses with its
/// pointer, and the two timers.
///
/// `VF` doubles as the flag register: instructions that produce a carry, a
/// borrow or a collision write 0 or 1 into it.
pub struct CPU {
    pub address_i: u16,
    pub program_counter: u16,
    pub stack_pointer: u8,
    pub v_registers: [u8; 16],
    pub stack: [u16; 16],
    pub delay_timer: u8,
    pub sound_timer: u8,
}

/// The state of the processor as plain values.
#[verifier::ext_equal]
pub ghost struct CpuView {
    /// The registers `V0` to `VF`.
    pub v: Seq<u8>,
    /// The address register `I`.
    pub i: u16,
    /// The program counter.
    pub pc: u16,
    /// The number of return addresses on the stack.
    pub sp: u8,
    /// The stack's sixteen slots; those below `sp` hold return addresses.
    pub stack: Seq<u16>,
    pub delay: u8,
    pub sound: u8,
}

impl View for CPU {
    type V = CpuView;

    open spec fn view(&self) -> CpuView {
        CpuView {
            v: self.v_registers@,
            i: self.address_i,
            pc: self.program_counter,
            sp: self.stack_pointer,
            stack: self.stack@,
            delay: self.delay_timer,
            sound: self.sound_timer,
        }
    }
}

/// The low eight bits of a number.
pub open spec fn wrap8(n: int) -> u8 {
    (n % 0x100) as u8
}

/// The low sixteen bits of a number.
pub open spec fn wrap16(n: int) -> u16 {
    (n % 0x10000) as u16
}

/// Memory after the three decimal digits of `value` were stored from `addr`
/// on, hundreds first.
pub open spec fn bcd_stored(memory: Seq<u8>, addr: int, value: u8) -> Seq<u8> {
    memory.update(addr, value / 100).update(addr + 1, (value % 100) / 10).update(
        addr + 2,
        value % 10,
    )
}

/// Memory after the registers `V0` to `Vx` inclusive were stored from `addr`
/// on.
pub open spec fn registers_stored(memory: Seq<u8>, addr: int, v: Seq<u8>, x: int) -> Seq<u8> {
    Seq::new(
        memory.len(),
        |a: int|
            if addr <= a <= addr + x {
                v[a - addr]
            } else {
                memory[a]
            },
    )
}

impl CpuView {
    /// The state after power-on or a reset: everything zero but the program
    /// counter, which stands at the address where programs are loaded.
    pub open spec fn initial() -> CpuView {
        CpuView {
            v: Seq::new(16, |r: int| 0u8),
            i: 0,
            pc: 0x200,
            sp: 0,
            stack: Seq::new(16, |s: int| 0u16),
            delay: 0,
            sound: 0,
        }
    }

    /// There are sixteen registers and sixteen stack slots, and the stack
    /// holds no more than it has room for.
    pub open spec fn wf(self) -> bool {
        self.v.len() == 16 && self.stack.len() == 16 && self.sp <= 16
    }

    /// The register `Vx` set to a value.
    pub open spec fn set_v(self, x: int, value: u8) -> CpuView {
        CpuView { v: self.v.update(x, value), ..self }
    }

    /// The flag register `VF` set to 1 or 0.
    pub open spec fn set_flag(self, flag: bool) -> CpuView {
        self.set_v(
            0xf,
            if flag {
                1u8
            } else {
                0u8
            },
        )
    }

    /// The program counter moved on by one instruction, which is two bytes.
    /// It wraps at sixteen bits.
    pub open spec fn advance(self) -> CpuView {
        CpuView { pc: wrap16(self.pc + 2), ..self }
    }

    /// The next instruction is skipped where the condition holds.
    pub open spec fn skip_if(self, condition: bool) -> CpuView {
        if condition {
            self.advance()
        } else {
            self
        }
    }

    /// `7xkk`: `Vx = Vx + kk`, wrapping at eight bits. No flag is written.
    pub open spec fn add_vx(self, x: int, byte: u8) -> CpuView {
        self.set_v(x, wrap8(self.v[x] + byte))
    }

    /// `Fx1E`: `I = I + Vx`, wrapping at sixteen bits.
    pub open spec fn add_i_vx(self, x: int) -> CpuView {
        CpuView { i: wrap16(self.i + self.v[x]), ..self }
    }

    /// `8xy4`: `VF` is the carry of `Vx + Vy`, then `Vx` is the sum's low
    /// eight bits. With `x` = 0xF the sum overwrites the carry.
    pub open spec fn add_vx_vy(self, x: int, y: int) -> CpuView {
        let sum = self.v[x] + self.v[y];
        self.set_flag(sum > 0xff).set_v(x, wrap8(sum))
    }

    /// `8xy2`: `Vx = Vx & Vy`.
    pub open spec fn and_vx_vy(self, x: int, y: int) -> CpuView {
        self.set_v(x, self.v[x] & self.v[y])
    }

    /// `2nnn`: the address of the next instruction is pushed, and execution
    /// goes on at `addr`.
    pub open spec fn call(self, addr: u16) -> CpuView {
        CpuView {
            stack: self.stack.update(self.sp as int, wrap16(self.pc + 2)),
            sp: (self.sp + 1) as u8,
            pc: addr,
            ..self
        }
    }

    /// `1nnn`: execution goes on at `addr`.
    pub open spec fn jp(self, addr: u16) -> CpuView {
        CpuView { pc: addr, ..self }
    }

    /// `Fx15`: the delay timer is set to `Vx`.
    pub open spec fn ld_dt_vx(self, x: int) -> CpuView {
        CpuView { delay: self.v[x], ..self }
    }

    /// `Fx29`: `I` is set to where the glyph of the digit `Vx` starts: glyphs
    /// take five bytes each and start at address 0.
    pub open spec fn ld_f_vx(self, x: int) -> CpuView {
        CpuView { i: (self.v[x] * 5) as u16, ..self }
    }

    /// `Annn`: `I = addr`.
    pub open spec fn ld_i(self, addr: u16) -> CpuView {
        CpuView { i: addr, ..self }
    }

    /// `Fx18`: the sound timer is set to `Vx`.
    pub open spec fn ld_st_vx(self, x: int) -> CpuView {
        CpuView { sound: self.v[x], ..self }
    }

    /// `6xkk`: `Vx = kk`.
    pub open spec fn ld_vx(self, x: int, byte: u8) -> CpuView {
        self.set_v(x, byte)
    }

    /// `Fx07`: `Vx` is set to the delay timer.
    pub open spec fn ld_vx_dt(self, x: int) -> CpuView {
        self.set_v(x, self.delay)
    }

    /// `Fx65`: the registers `V0` to `Vx` inclusive are loaded from memory at
    /// `I` on. `I` stays.
    pub open spec fn ld_vx_i(self, x: int, memory: Seq<u8>) -> CpuView {
        CpuView {
            v: Seq::new(
                self.v.len(),
                |r: int|
                    if r <= x {
                        memory[self.i + r]
                    } else {
                        self.v[r]
                    },
            ),
            ..self
        }
    }

    /// `Fx0A`: with a key down, `Vx` is set to it. With none, the program
    /// counter steps back by one instruction, so that, once it has moved on
    /// as after every instruction, the same instruction is fetched again.
    pub open spec fn ld_vx_k(self, x: int, key: u8) -> CpuView {
        if key == 0 {
            CpuView { pc: wrap16(self.pc - 2), ..self }
        } else {
            self.set_v(x, key)
        }
    }

    /// `8xy0`: `Vx = Vy`.
    pub open spec fn ld_vx_vy(self, x: int, y: int) -> CpuView {
        self.set_v(x, self.v[y])
    }

    /// `00EE`: the last return address is popped, and execution goes on
    /// there.
    pub open spec fn ret(self) -> CpuView {
        CpuView { sp: (self.sp - 1) as u8, pc: self.stack[self.sp - 1], ..self }
    }

    /// `Cxkk`: `Vx` is a random byte masked with `kk`.
    pub open spec fn rnd(self, x: int, byte: u8, random: u8) -> CpuView {
        self.set_v(x, random & byte)
    }

    /// `3xkk`: the next instruction is skipped if `Vx == kk`.
    pub open spec fn se_vx(self, x: int, byte: u8) -> CpuView {
        self.skip_if(self.v[x] == byte)
    }

    /// `8xy6`: `VF` is the lowest bit of `Vx`, then `Vx` is shifted right by
    /// one. `Vy` plays no part. With `x` = 0xF it is the flag just written
    /// that is shifted.
    pub open spec fn shr_vx_vy(self, x: int, y: int) -> CpuView {
        let flagged = self.set_v(0xf, self.v[x] & 1);
        flagged.set_v(x, flagged.v[x] >> 1)
    }

    /// `Ex9E`: the next instruction is skipped if the key that is down is
    /// `Vx`.
    pub open spec fn skp_vx(self, x: int, key: u8) -> CpuView {
        self.skip_if(key == self.v[x])
    }

    /// `ExA1`: the next instruction is skipped if the key that is down is not
    /// `Vx`.
    pub open spec fn sknp_vx(self, x: int, key: u8) -> CpuView {
        self.skip_if(key != self.v[x])
    }

    /// `4xkk`: the next instruction is skipped if `Vx != kk`.
    pub open spec fn sne_vx(self, x: int, byte: u8) -> CpuView {
        self.skip_if(self.v[x] != byte)
    }

    /// `8xy5`: `VF` is 1 if `Vx > Vy` and 0 otherwise, then `Vx = Vx - Vy`,
    /// wrapping at eight bits. The difference is taken of the registers as
    /// they stand once the flag is written, which matters where `x` or `y`
    /// is 0xF.
    pub open spec fn sub_vx_vy(self, x: int, y: int) -> CpuView {
        let flagged = self.set_flag(self.v[x] > self.v[y]);
        flagged.set_v(x, wrap8(flagged.v[x] - flagged.v[y]))
    }

    /// `8xy3`: `Vx = Vx ^ Vy`.
    pub open spec fn xor_vx_vy(self, x: int, y: int) -> CpuView {
        self.set_v(x, self.v[x] ^ self.v[y])
    }

    /// Where a sprite drawn by `Dxyn` has its top left corner: at column
    /// `Vx`, row `Vy`, both read once `VF` has been reset.
    pub open spec fn sprite_origin(self, x: int, y: int) -> (int, int) {
        let reset = self.set_flag(false);
        (reset.v[x] as int, reset.v[y] as int)
    }

    /// `Dxyn`, the processor's side: `VF` is 1 if drawing the sprite onto
    /// `screen` switched a lit pixel off, and 0 otherwise.
    pub open spec fn drw(self, x: int, y: int, sprite: Seq<u8>, screen: Bitmap) -> CpuView {
        let origin = self.sprite_origin(x, y);
        self.set_flag(screen.collides(sprite, origin.0, origin.1))
    }

    /// One tick of the timers: each goes down by one unless it is at zero.
    pub open spec fn tick(self) -> CpuView {
        CpuView {
            delay: if self.delay > 0 {
                (self.delay - 1) as u8
            } else {
                0
            },
            sound: if self.sound > 0 {
                (self.sound - 1) as u8
            } else {
                0
            },
            ..self
        }
    }

    /// The state after `n` ticks of the timers.
    pub open spec fn ticks(self, n: nat) -> CpuView
        decreases n,
    {
        if n == 0 {
            self
        } else {
            self.tick().ticks((n - 1) as nat)
        }
    }
}

impl MachineView {
    /// The instruction can be executed without reaching beyond the stack or
    /// the memory: a return finds an address on the stack, a call finds a
    /// free slot, and what is read or written at `I` lies within memory.
    pub open spec fn ready(self, i: Instruction) -> bool {
        if i.first == 0x0 && i.kk == 0xee {
            0 < self.cpu.sp <= 16
        } else if i.first == 0x2 {
            self.cpu.sp < 16
        } else if i.first == 0xd {
            self.cpu.i + i.n <= self.bus.memory.len()
        } else if i.first == 0xf && i.kk == 0x33 {
            self.cpu.i + 2 < self.bus.memory.len()
        } else if i.first == 0xf && (i.kk == 0x55 || i.kk == 0x65) {
            self.cpu.i + i.x < self.bus.memory.len()
        } else {
            true
        }
    }

    /// The same machine with another processor state.
    pub open spec fn with_cpu(self, cpu: CpuView) -> MachineView {
        MachineView { cpu, ..self }
    }

    /// The same machine with other memory contents.
    pub open spec fn with_memory(self, memory: Seq<u8>) -> MachineView {
        MachineView { bus: BusView { memory, ..self.bus }, ..self }
    }

    /// The same machine with another picture on the screen.
    pub open spec fn with_screen(self, screen: Bitmap) -> MachineView {
        MachineView { bus: BusView { screen, ..self.bus }, ..self }
    }

    /// The sprite that `Dxyn` draws: the `n` bytes of memory from `I` on.
    pub open spec fn sprite(self, n: int) -> Seq<u8> {
        self.bus.memory.subrange(self.cpu.i as int, self.cpu.i + n)
    }

    /// The dispatch table: what an instruction that the table knows does to
    /// the machine, before the program counter moves on. `random` is the byte
    /// that `Cxkk` draws; no other instruction uses it.
    pub open spec fn dispatch(self, i: Instruction, random: u8) -> MachineView {
        let c = self.cpu;
        let x = i.x as int;
        let y = i.y as int;
        let key = self.bus.keys.pressed;
        if i.first == 0x0 {
            if i.kk == 0xe0 {
                self.with_screen(self.bus.screen.cleared())
            } else {
                self.with_cpu(c.ret())
            }
        } else if i.first == 0x1 {
            self.with_cpu(c.jp(i.nnn))
        } else if i.first == 0x2 {
            self.with_cpu(c.call(i.nnn))
        } else if i.first == 0x3 {
            self.with_cpu(c.se_vx(x, i.kk))
        } else if i.first == 0x4 {
            self.with_cpu(c.sne_vx(x, i.kk))
        } else if i.first == 0x6 {
            self.with_cpu(c.ld_vx(x, i.kk))
        } else if i.first == 0x7 {
            self.with_cpu(c.add_vx(x, i.kk))
        } else if i.first == 0x8 {
            if i.n == 0x0 {
                self.with_cpu(c.ld_vx_vy(x, y))
            } else if i.n == 0x2 {
                self.with_cpu(c.and_vx_vy(x, y))
            } else if i.n == 0x3 {
                self.with_cpu(c.xor_vx_vy(x, y))
            } else if i.n == 0x4 {
                self.with_cpu(c.add_vx_vy(x, y))
            } else if i.n == 0x5 {
                self.with_cpu(c.sub_vx_vy(x, y))
            } else {
                self.with_cpu(c.shr_vx_vy(x, y))
            }
        } else if i.first == 0xa {
            self.with_cpu(c.ld_i(i.nnn))
        } else if i.first == 0xc {
            self.with_cpu(c.rnd(x, i.kk, random))
        } else if i.first == 0xd {
            let sprite = self.sprite(i.n as int);
            let origin = c.sprite_origin(x, y);
            self.with_cpu(c.drw(x, y, sprite, self.bus.screen)).with_screen(
                self.bus.screen.blit(sprite, origin.0, origin.1),
            )
        } else if i.first == 0xe {
            if i.kk == 0x9e {
                self.with_cpu(c.skp_vx(x, key))
            } else {
                self.with_cpu(c.sknp_vx(x, key))
            }
        } else {
            if i.kk == 0x07 {
                self.with_cpu(c.ld_vx_dt(x))
            } else if i.kk == 0x0a {
                self.with_cpu(c.ld_vx_k(x, key))
            } else if i.kk == 0x15 {
                self.with_cpu(c.ld_dt_vx(x))
            } else if i.kk == 0x18 {
                self.with_cpu(c.ld_st_vx(x))
            } else if i.kk == 0x1e {
                self.with_cpu(c.add_i_vx(x))
            } else if i.kk == 0x29 {
                self.with_cpu(c.ld_f_vx(x))
            } else if i.kk == 0x33 {
                self.with_memory(bcd_stored(self.bus.memory, c.i as int, c.v[x]))
            } else if i.kk == 0x55 {
                self.with_memory(registers_stored(self.bus.memory, c.i as int, c.v, x))
            } else {
                self.with_cpu(c.ld_vx_i(x, self.bus.memory))
            }
        }
    }

    /// The machine after an instruction that the dispatch table knows: what
    /// the table says, and then the program counter moves on by two, unless
    /// the instruction is a jump, a call or the return `00EE`, which have set
    /// it themselves. That is on top of what a skip has added and a wait for
    /// a key has taken away. The opcodes of family 0 with the low byte 0xEE
    /// other than `00EE` itself return and then move on.
    pub open spec fn execute(self, i: Instruction, random: u8) -> MachineView {
        let after = self.dispatch(i, random);
        if i.first != 0x2 && i.first != 0x1 && i.raw_bytes != 0x00ee {
            after.with_cpu(after.cpu.advance())
        } else {
            after
        }
    }
}

/// A random number from `low` up to, but not including, `high`: the call
/// `rand::thread_rng().gen_range(low, high)`.
///
/// `Rng::gen_range` documents that the number lies in that range and that it
/// panics unless `low < high`, which the precondition demands. Which number
/// of the range comes is not said. The generator is the calling thread's own;
/// it is seeded from the operating system when the thread first asks for it.
#[verifier::external_body]
fn random_in_range(low: u16, high: u16) -> (random: u16)
    requires
        low < high,
    ensures
        low <= random < high,
{
    thread_rng().gen_range(low, high)
}

/// A sprite on its way onto a screen: the screen as it was before the first
/// bit was drawn, the sprite, and where its top left corner goes. The bits
/// are drawn row by row, each row from the left.
ghost struct Drawing {
    screen: Bitmap,
    sprite: Seq<u8>,
    x0: int,
    y0: int,
}

impl Drawing {
    /// The pixel `(x, y)` is under a bit that is done once the rows above
    /// `row` and, of row `row`, the columns left of `col` are.
    spec fn covers_before(self, row: int, col: int, x: int, y: int) -> bool {
        self.screen.covers(self.sprite, self.x0, self.y0, x, y) && (y - self.y0 < row || (y
            - self.y0 == row && x - self.x0 < col))
    }

    /// The screen at that point.
    spec fn screen_before(self, row: int, col: int) -> Bitmap {
        Bitmap {
            lit: Set::new(
                |p: (int, int)|
                    self.screen.lit.contains(p) != self.covers_before(row, col, p.0, p.1),
            ),
            ..self.screen
        }
    }

    /// A lit pixel has been switched off by that point.
    spec fn collided_before(self, row: int, col: int) -> bool {
        exists|x: int, y: int|
            self.screen.lit.contains((x, y)) && #[trigger] self.covers_before(row, col, x, y)
    }

    /// The bit in row `row`, column `col` is set and lands on the screen.
    spec fn hits(self, row: int, col: int) -> bool {
        self.screen.inside(self.x0 + col, self.y0 + row) && self.sprite[row] & (0x80u8 >> (
        col as u8)) != 0
    }

    /// Before the first bit nothing is drawn.
    proof fn lemma_start(self)
        ensures
            self.screen_before(0, 0) == self.screen,
            !self.collided_before(0, 0),
    {
        assert(self.screen_before(0, 0).lit =~= self.screen.lit);
    }

    /// One more bit: the pixel under it, which no earlier bit has touched, is
    /// inverted if the bit is set and lands on the screen. Nothing else
    /// changes.
    proof fn lemma_next(self, row: int, col: int)
        requires
            0 <= row < self.sprite.len(),
            0 <= col < 8,
        ensures
            ({
                let x = self.x0 + col;
                let y = self.y0 + row;
                let was_lit = self.screen.lit.contains((x, y));
                let here = self.screen_before(row, col);
                &&& here.lit.contains((x, y)) == was_lit
                &&& self.screen_before(row, col + 1) == if self.hits(row, col) {
                    here.with_pixel(x, y, !was_lit)
                } else {
                    here
                }
                &&& self.collided_before(row, col + 1) == (self.collided_before(row, col) || (
                self.hits(row, col) && was_lit))
            }),
    {
        let x = self.x0 + col;
        let y = self.y0 + row;
        let hit = self.hits(row, col);
        let was_lit = self.screen.lit.contains((x, y));
        let here = self.screen_before(row, col);
        let next = self.screen_before(row, col + 1);
        // the bits done after this one are those done before it, and this one
        assert forall|a: int, b: int|
            self.covers_before(row, col + 1, a, b) == (self.covers_before(row, col, a, b) || (hit
                && a == x && b == y)) by {}
        assert(next.lit =~= if hit {
            here.with_pixel(x, y, !was_lit).lit
        } else {
            here.lit
        });
        if self.collided_before(row, col) {
            let (a, b) = choose|a: int, b: int|
                self.screen.lit.contains((a, b)) && #[trigger] self.covers_before(row, col, a, b);
            assert(self.covers_before(row, col + 1, a, b));
        }
        if hit && was_lit {
            assert(self.covers_before(row, col + 1, x, y));
        }
        if self.collided_before(row, col + 1) {
            let (a, b) = choose|a: int, b: int|
                self.screen.lit.contains((a, b)) && #[trigger] self.covers_before(
                    row,
                    col + 1,
                    a,
                    b,
                );
            assert(self.covers_before(row, col, a, b) || (hit && a == x && b == y));
        }
    }

    /// A row that is done to its last bit is the next row not yet begun.
    proof fn lemma_row_done(self, row: int)
        ensures
            self.screen_before(row, 8) == self.screen_before(row + 1, 0),
            self.collided_before(row, 8) == self.collided_before(row + 1, 0),
    {
        assert forall|a: int, b: int|
            self.covers_before(row, 8, a, b) == self.covers_before(row + 1, 0, a, b) by {}
        assert(self.screen_before(row, 8).lit =~= self.screen_before(row + 1, 0).lit);
        if self.collided_before(row, 8) {
            let (a, b) = choose|a: int, b: int|
                self.screen.lit.contains((a, b)) && #[trigger] self.covers_before(row, 8, a, b);
            assert(self.covers_before(row + 1, 0, a, b));
        }
        if self.collided_before(row + 1, 0) {
            let (a, b) = choose|a: int, b: int|
                self.screen.lit.contains((a, b)) && #[trigger] self.covers_before(
                    row + 1,
                    0,
                    a,
                    b,
                );
            assert(self.covers_before(row, 8, a, b));
        }
    }

    /// Once the last row is done the whole sprite is drawn.
    proof fn lemma_done(self)
        ensures
            self.screen_before(self.sprite.len() as int, 0) == self.screen.blit(
                self.sprite,
                self.x0,
                self.y0,
            ),
            self.collided_before(self.sprite.len() as int, 0) == self.screen.collides(
                self.sprite,
                self.x0,
                self.y0,
            ),
    {
        let rows = self.sprite.len() as int;
        let whole = self.screen.blit(self.sprite, self.x0, self.y0);
        assert forall|a: int, b: int|
            self.covers_before(rows, 0, a, b) == self.screen.covers(
                self.sprite,
                self.x0,
                self.y0,
                a,
                b,
            ) by {}
        assert(self.screen_before(rows, 0).lit =~= whole.lit);
        if self.collided_before(rows, 0) {
            let (a, b) = choose|a: int, b: int|
                self.screen.lit.contains((a, b)) && #[trigger] self.covers_before(rows, 0, a, b);
            assert(self.screen.covers(self.sprite, self.x0, self.y0, a, b));
        }
        if self.screen.collides(self.sprite, self.x0, self.y0) {
            let (a, b) = choose|a: int, b: int|
                self.screen.lit.contains((a, b)) && #[trigger] self.screen.covers(
                    self.sprite,
                    self.x0,
                    self.y0,
                    a,
                    b,
                );
            assert(self.covers_before(rows, 0, a, b));
        }
    }
}

impl Default for CPU {
    fn default() -> (cpu: CPU)
        ensures
            cpu@ == CpuView::initial(),
    {
        CPU {
            address_i: 0,
            program_counter: 0x200,
            stack_pointer: 0,
            stack: [0; 16],
            v_registers: [0; 16],
            delay_timer: 0,
            sound_timer: 0,
        }
    }
}

impl CPU {
    /// Puts the processor back into its initial state and blanks the screen.
    pub fn reset(&mut self, display: &mut Box<dyn Display>)
        ensures
            final(self)@ == CpuView::initial(),
            final(display).bitmap() == old(display).bitmap().cleared(),
    {
        self.address_i = 0;
        self.program_counter = 0x200;
        self.stack_pointer = 0;
        self.stack = [0; 16];
        self.v_registers = [0; 16];
        self.delay_timer = 0;
        self.sound_timer = 0;

        self.cls(display);
    }

    /// One tick of the timers, at the host's fixed rate. Both timers go down
    /// by one unless they are at zero; then the tone is told to sound if the
    /// sound timer is still running, and to stop if it is not.
    pub fn handler_timers(&mut self, audio: &mut Box<dyn AudioSource>)
        ensures
            final(self)@ == old(self)@.tick(),
            final(audio).playing() == (final(self)@.sound > 0),
    {
        if self.delay_timer > 0 {
            self.delay_timer -= 1;
        }
        if self.sound_timer > 0 {
            self.sound_timer -= 1;
        }
        if self.sound_timer > 0 {
            audio.start_sound();
        } else {
            audio.stop_sound();
        }
    }

    /// `7xkk`: adds `kk` to `Vx`, wrapping at eight bits; no flag is written.
    pub fn add_vx(&mut self, x: usize, byte: u8)
        requires
            x < 16,
        ensures
            final(self)@ == old(self)@.add_vx(x as int, byte),
    {
        self.v_registers[x] = self.v_registers[x].wrapping_add(byte);
    }

    /// `Fx1E`: adds `Vx` to `I`, wrapping at sixteen bits.
    pub fn add_i_vx(&mut self, x: usize)
        requires
            x < 16,
        ensures
            final(self)@ == old(self)@.add_i_vx(x as int),
    {
        self.address_i = self.address_i.wrapping_add(self.v_registers[x] as u16);
    }

    /// `8xy4`: adds `Vy` to `Vx`; `VF` is the carry.
    pub fn add_vx_vy(&mut self, x: usize, y: usize)
        requires
            x < 16,
            y < 16,
        ensures
            final(self)@ == old(self)@.add_vx_vy(x as int, y as int),
    {
        let buffer: u16 = self.v_registers[x] as u16 + self.v_registers[y] as u16;
        if buffer > 0xff {
            self.v_registers[0xf] = 0x1;
        } else {
            self.v_registers[0xf] = 0x0;
        }
        assert(buffer & 0xff == buffer % 0x100) by (bit_vector);
        self.v_registers[x] = (buffer & 0xff) as u8;
    }

    /// `8xy2`: `Vx = Vx & Vy`.
    pub fn and_vx_vy(&mut self, x: usize, y: usize)
        requires
            x < 16,
            y < 16,
        ensures
            final(self)@ == old(self)@.and_vx_vy(x as int, y as int),
    {
        self.v_registers[x] = self.v_registers[x] & self.v_registers[y];
    }

    /// `2nnn`: pushes the address of the next instruction and goes on at `addr`.
    /// The stack must have a free slot.
    pub fn call(&mut self, addr: u16)
        requires
            old(self).stack_pointer < 16,
        ensures
            final(self)@ == old(self)@.call(addr),
    {
        self.stack[self.stack_pointer as usize] = self.program_counter.wrapping_add(2);
        self.stack_pointer += 1;
        self.program_counter = addr;
    }

    /// `00E0`: blanks the screen.
    pub fn cls(&mut self, display: &mut Box<dyn Display>)
        ensures
            final(self)@ == old(self)@,
            final(display).bitmap() == old(display).bitmap().cleared(),
    {
        display.clear();
    }

    /// `1nnn`: goes on at `addr`.
    pub fn jp(&mut self, addr: u16)
        ensures
            final(self)@ == old(self)@.jp(addr),
    {
        self.program_counter = addr;
    }

    /// `Fx33`: stores the three decimal digits of `Vx` at `I`, `I + 1` and
    /// `I + 2`, hundreds first. The three bytes must lie within memory.
    pub fn ld_bcd_vx(&mut self, x: usize, memory: &mut [u8])
        requires
            x < 16,
            old(self).address_i + 2 < old(memory)@.len(),
        ensures
            final(self)@ == old(self)@,
            final(memory)@ == bcd_stored(
                old(memory)@,
                old(self).address_i as int,
                old(self)@.v[x as int],
            ),
    {
        memory[self.address_i as usize] = self.v_registers[x] / 100;
        memory[self.address_i as usize + 1] = self.v_registers[x] % 100 / 10;
        memory[self.address_i as usize + 2] = self.v_registers[x] % 10;
    }

    /// `Fx15`: sets the delay timer to `Vx`.
    pub fn ld_dt_vx(&mut self, x: usize)
        requires
            x < 16,
        ensures
            final(self)@ == old(self)@.ld_dt_vx(x as int),
    {
        self.delay_timer = self.v_registers[x];
    }

    /// `Fx29`: sets `I` to `Vx * 5`, where the glyph of the digit `Vx` starts.
    pub fn ld_f_vx(&mut self, x: usize)
        requires
            x < 16,
        ensures
            final(self)@ == old(self)@.ld_f_vx(x as int),
    {
        self.address_i = self.v_registers[x] as u16 * 5;
    }

    /// `Annn`: `I = addr`.
    pub fn ld_i(&mut self, addr: u16)
        ensures
            final(self)@ == old(self)@.ld_i(addr),
    {
        self.address_i = addr;
    }

    /// `Fx55`: stores `V0` to `Vx` inclusive in memory from `I` on; `I` stays.
    /// The bytes written must lie within memory.
    pub fn ld_i_vx(&mut self, x: usize, memory: &mut [u8])
        requires
            x < 16,
            old(self).address_i + x < old(memory)@.len(),
        ensures
            final(self)@ == old(self)@,
            final(memory)@ == registers_stored(
                old(memory)@,
                old(self).address_i as int,
                old(self)@.v,
                x as int,
            ),
    {
        let base = self.address_i as usize;
        let mut index: usize = 0;
        while index <= x
            invariant
                x < 16,
                index <= x + 1,
                base == self.address_i,
                base + x < memory@.len(),
                memory@.len() == old(memory)@.len(),
                *self == *old(self),
                memory@ == registers_stored(
                    old(memory)@,
                    base as int,
                    self.v_registers@,
                    index as int - 1,
                ),
            decreases x + 1 - index,
        {
            memory[base + index] = self.v_registers[index];
            index += 1;
        }
    }

    /// `Fx18`: sets the sound timer to `Vx`.
    pub fn ld_st_vx(&mut self, x: usize)
        requires
            x < 16,
        ensures
            final(self)@ == old(self)@.ld_st_vx(x as int),
    {
        self.sound_timer = self.v_registers[x];
    }

    /// `6xkk`: `Vx = kk`.
    pub fn ld_vx(&mut self, x: usize, byte: u8)
        requires
            x < 16,
        ensures
            final(self)@ == old(self)@.ld_vx(x as int, byte),
    {
        self.v_registers[x] = byte;
    }

    /// `Fx07`: sets `Vx` to the delay timer.
    pub fn ld_vx_dt(&mut self, x: usize)
        requires
            x < 16,
        ensures
            final(self)@ == old(self)@.ld_vx_dt(x as int),
    {
        self.v_registers[x] = self.delay_timer;
    }

    /// `Fx65`: loads `V0` to `Vx` inclusive from memory at `I` on; `I` stays.
    /// The bytes read must lie within memory.
    pub fn ld_vx_i(&mut self, x: usize, memory: &[u8])
        requires
            x < 16,
            old(self).address_i + x < memory@.len(),
        ensures
            final(self)@ == old(self)@.ld_vx_i(x as int, memory@),
    {
        let base = self.address_i as usize;
        let mut n: usize = 0;
        while n <= x
            invariant
                x < 16,
                n <= x + 1,
                base == self.address_i,
                base + x < memory@.len(),
                self@ == old(self)@.ld_vx_i(n as int - 1, memory@),
            decreases x + 1 - n,
        {
            self.v_registers[n] = memory[base + n];
            n += 1;
        }
    }

    /// `Fx0A`: with a key down, sets `Vx` to it; with none, steps the program
    /// counter back so that the instruction is executed again.
    pub fn ld_vx_k(&mut self, x: usize, keyboard: &mut Box<dyn Keyboard>)
        requires
            x < 16,
        ensures
            final(self)@ == old(self)@.ld_vx_k(x as int, old(keyboard).keys().pressed),
            final(keyboard).keys() == old(keyboard).keys(),
    {
        let key_down = keyboard.get_key();

        if key_down == 0 {
            self.program_counter = self.program_counter.wrapping_sub(2);
        } else {
            self.v_registers[x] = key_down;
        }
    }

    /// `8xy0`: `Vx = Vy`.
    pub fn ld_vx_vy(&mut self, x: usize, y: usize)
        requires
            x < 16,
            y < 16,
        ensures
            final(self)@ == old(self)@.ld_vx_vy(x as int, y as int),
    {
        self.v_registers[x] = self.v_registers[y];
    }

    /// `00EE`: pops the last return address and goes on there. The stack must
    /// hold one.
    pub fn ret(&mut self)
        requires
            0 < old(self).stack_pointer <= 16,
        ensures
            final(self)@ == old(self)@.ret(),
    {
        self.stack_pointer -= 1;
        self.program_counter = self.stack[self.stack_pointer as usize];
    }

    /// `Cxkk`: sets `Vx` to a random byte masked with `kk`. Whatever byte is
    /// drawn, the result is that of `rnd_with` for it.
    pub fn rnd(&mut self, x: usize, byte: u8)
        requires
            x < 16,
        ensures
            exists|random: u8| final(self)@ == #[trigger] old(self)@.rnd(x as int, byte, random),
    {
        let random_num = random_in_range(0, 256);
        self.rnd_with(x, byte, random_num as u8);
        assert(self@ == old(self)@.rnd(x as int, byte, random_num as u8));
    }

    /// `Cxkk` with the random byte given: `Vx = random & kk`.
    pub fn rnd_with(&mut self, x: usize, byte: u8, random: u8)
        requires
            x < 16,
        ensures
            final(self)@ == old(self)@.rnd(x as int, byte, random),
    {
        self.v_registers[x] = random & byte;
    }

    /// `3xkk`: skips the next instruction if `Vx == kk`.
    pub fn se_vx(&mut self, vx: usize, byte: u8)
        requires
            vx < 16,
        ensures
            final(self)@ == old(self)@.se_vx(vx as int, byte),
    {
        if self.v_registers[vx] == byte {
            self.program_counter = self.program_counter.wrapping_add(2);
        }
    }

    /// `8xy6`: shifts `Vx` right by one; `VF` is the bit shifted out.
    pub fn shr_vx_vy(&mut self, x: usize, y: usize)
        requires
            x < 16,
            y < 16,
        ensures
            final(self)@ == old(self)@.shr_vx_vy(x as int, y as int),
    {
        let low = self.v_registers[x];
        assert(low & 0x1 == 0x1 || low & 0x1 == 0x0) by (bit_vector);
        if self.v_registers[x] & 0x1 == 0x1 {
            self.v_registers[0xf] = 0x1;
        } else {
            self.v_registers[0xf] = 0x0;
        }
        self.v_registers[x] = self.v_registers[x] >> 1;
    }

    /// `Ex9E`: skips the next instruction if the key that is down is `Vx`.
    pub fn skp_vx(&mut self, x: usize, keyboard: &mut Box<dyn Keyboard>)
        requires
            x < 16,
        ensures
            final(self)@ == old(self)@.skp_vx(x as int, old(keyboard).keys().pressed),
            final(keyboard).keys() == old(keyboard).keys(),
    {
        if keyboard.get_key() == self.v_registers[x] {
            self.program_counter = self.program_counter.wrapping_add(2);
        }
    }

    /// `ExA1`: skips the next instruction if the key that is down is not `Vx`.
    pub fn sknp_vx(&mut self, x: usize, keyboard: &mut Box<dyn Keyboard>)
        requires
            x < 16,
        ensures
            final(self)@ == old(self)@.sknp_vx(x as int, old(keyboard).keys().pressed),
            final(keyboard).keys() == old(keyboard).keys(),
    {
        if keyboard.get_key() != self.v_registers[x] {
            self.program_counter = self.program_counter.wrapping_add(2);
        }
    }

    /// `4xkk`: skips the next instruction if `Vx != kk`.
    pub fn sne_vx(&mut self, vx: usize, byte: u8)
        requires
            vx < 16,
        ensures
            final(self)@ == old(self)@.sne_vx(vx as int, byte),
    {
        if self.v_registers[vx] != byte {
            self.program_counter = self.program_counter.wrapping_add(2);
        }
    }

    /// `8xy5`: subtracts `Vy` from `Vx`, wrapping at eight bits; `VF` is 1 if
    /// `Vx > Vy` and 0 otherwise.
    pub fn sub_vx_vy(&mut self, x: usize, y: usize)
        requires
            x < 16,
            y < 16,
        ensures
            final(self)@ == old(self)@.sub_vx_vy(x as int, y as int),
    {
        if self.v_registers[x] > self.v_registers[y] {
            self.v_registers[0xf] = 0x1;
        } else {
            self.v_registers[0xf] = 0x0;
        }
        self.v_registers[x] = self.v_registers[x].wrapping_sub(self.v_registers[y]);
    }

    /// `8xy3`: `Vx = Vx ^ Vy`.
    pub fn xor_vx_vy(&mut self, x: usize, y: usize)
        requires
            x < 16,
            y < 16,
        ensures
            final(self)@ == old(self)@.xor_vx_vy(x as int, y as int),
    {
        self.v_registers[x] ^= self.v_registers[y];
    }

    /// `Dxyn`: draws the sprite of `n` rows that memory holds at `I` with its
    /// top left corner at column `Vx`, row `Vy`. `VF` is reset first. Every
    /// pixel under a set bit of the sprite is inverted; where that switches a
    /// lit pixel off, `VF` becomes 1. Set bits that fall beyond the right or
    /// the lower edge of the screen are dropped.
    pub fn drw(
        &mut self,
        x: usize,
        y: usize,
        n: usize,
        memory: &[u8],
        display: &mut Box<dyn Display>,
    )
        requires
            x < 16,
            y < 16,
            old(self).address_i + n <= memory@.len(),
        ensures
            final(self)@ == old(self)@.drw(
                x as int,
                y as int,
                memory@.subrange(old(self).address_i as int, old(self).address_i + n),
                old(display).bitmap(),
            ),
            final(display).bitmap() == old(display).bitmap().blit(
                memory@.subrange(old(self).address_i as int, old(self).address_i + n),
                old(self)@.sprite_origin(x as int, y as int).0,
                old(self)@.sprite_origin(x as int, y as int).1,
            ),
    {
        self.v_registers[0xf] = 0x0;

        let pixel_size: u32 = 20;
        let base: usize = self.address_i as usize;
        let left: usize = self.v_registers[x] as usize;
        let top: usize = self.v_registers[y] as usize;
        let width: usize = display.get_width();
        let height: usize = display.get_height();
        let ghost reset = self@;
        let ghost drawing = Drawing {
            screen: display.bitmap(),
            sprite: memory@.subrange(base as int, base + n),
            x0: left as int,
            y0: top as int,
        };
        proof {
            vstd::slice::axiom_spec_len(memory);
            drawing.lemma_start();
        }
        let mut row: usize = 0;
        while row < n
            invariant
                row <= n,
                base + n <= memory@.len() <= usize::MAX,
                reset.v.len() == 16,
                drawing.sprite == memory@.subrange(base as int, base + n),
                drawing.x0 == left < 256,
                drawing.y0 == top < 256,
                width == drawing.screen.width,
                height == drawing.screen.height,
                display.bitmap() == drawing.screen_before(row as int, 0),
                self@ == reset.set_flag(drawing.collided_before(row as int, 0)),
            decreases n - row,
        {
            let pixel = memory[base + row];
            let mut col: u8 = 0;
            while col < 8
                invariant
                    col <= 8,
                    row < n,
                    reset.v.len() == 16,
                    drawing.sprite.len() == n,
                    pixel == drawing.sprite[row as int],
                    drawing.x0 == left < 256,
                    drawing.y0 == top < 256,
                    width == drawing.screen.width,
                    height == drawing.screen.height,
                    display.bitmap() == drawing.screen_before(row as int, col as int),
                    self@ == reset.set_flag(drawing.collided_before(row as int, col as int)),
                decreases 8 - col,
            {
                proof {
                    drawing.lemma_next(row as int, col as int);
                }
                if (pixel & (0x80 >> col)) != 0 {
                    let x_coord = left + col as usize;
                    if x_coord < width && row < height && top < height - row {
                        let y_coord = top + row;

                        let cur_pixel = display.get_pixel(x_coord, y_coord);
                        if cur_pixel {
                            self.v_registers[0xf] = 0x1;
                        }
                        display.draw_pixel(x_coord, y_coord, pixel_size, cur_pixel ^ true);
                    }
                }
                col += 1;
            }
            proof {
                drawing.lemma_row_done(row as int);
            }
            row += 1;
        }
        proof {
            drawing.lemma_done();
        }
    }

    /// Whether `execute_instruction` may be called: see [`MachineView::ready`].
    pub fn is_ready(&self, instruction: &Instruction, bus: &Chip8Bus) -> (ready: bool)
        ensures
            ready == (MachineView { cpu: self@, bus: bus@ }).ready(*instruction),
    {
        if instruction.first == 0x0 && instruction.kk == 0xee {
            0 < self.stack_pointer && self.stack_pointer <= 16
        } else if instruction.first == 0x2 {
            self.stack_pointer < 16
        } else if instruction.first == 0xd {
            self.address_i as usize + instruction.n as usize <= bus.memory.len()
        } else if instruction.first == 0xf && instruction.kk == 0x33 {
            self.address_i as usize + 2 < bus.memory.len()
        } else if instruction.first == 0xf && (instruction.kk == 0x55 || instruction.kk == 0x65) {
            instruction.x < bus.memory.len() && (self.address_i as usize) < bus.memory.len()
                - instruction.x
        } else {
            true
        }
    }

    /// Executes one decoded instruction on the processor and the bus.
    ///
    /// An opcode that the dispatch table has no entry for is an error that
    /// carries the opcode, and changes nothing. Every other instruction has
    /// the effect that [`MachineView::execute`] gives it.
    pub fn execute_instruction(&mut self, instruction: Instruction, bus: &mut Chip8Bus) -> (result:
        Result<(), UnknownInstructionError>)
        requires
            instruction.wf(),
            (MachineView { cpu: old(self)@, bus: old(bus)@ }).ready(instruction),
        ensures
            result is Ok <==> instruction.known(),
            result is Ok ==> exists|random: u8|
                (MachineView { cpu: final(self)@, bus: final(bus)@ }) == #[trigger] (MachineView {
                    cpu: old(self)@,
                    bus: old(bus)@,
                }).execute(instruction, random),
            result matches Err(error) ==> error.raw_opcode == instruction.raw_bytes && final(self)@
                == old(self)@ && final(bus)@ == old(bus)@,
    {
        proof {
            lemma_decode_fields(instruction.raw_bytes);
        }
        let ghost before = MachineView { cpu: self@, bus: bus@ };
        let ghost mut random: u8 = 0;
        match instruction.first {
            0x0 => match instruction.kk {
                0xe0 => self.cls(&mut bus.display),
                0xee => self.ret(),
                _ => return Err(self.unknown_instruction(&instruction)),
            },
            0x1 => self.jp(instruction.nnn),
            0x2 => self.call(instruction.nnn),
            0x3 => self.se_vx(instruction.x, instruction.kk),
            0x4 => self.sne_vx(instruction.x, instruction.kk),
            0x6 => self.ld_vx(instruction.x, instruction.kk),
            0x7 => self.add_vx(instruction.x, instruction.kk),
            0x8 => match instruction.n {
                0x0 => self.ld_vx_vy(instruction.x, instruction.y),
                0x2 => self.and_vx_vy(instruction.x, instruction.y),
                0x3 => self.xor_vx_vy(instruction.x, instruction.y),
                0x4 => self.add_vx_vy(instruction.x, instruction.y),
                0x5 => self.sub_vx_vy(instruction.x, instruction.y),
                0x6 => self.shr_vx_vy(instruction.x, instruction.y),
                _ => return Err(self.unknown_instruction(&instruction)),
            },
            0xa => self.ld_i(instruction.nnn),
            0xc => {
                self.rnd(instruction.x, instruction.kk);
                proof {
                    random = choose|random: u8|
                        self@ == #[trigger] before.cpu.rnd(
                            instruction.x as int,
                            instruction.kk,
                            random,
                        );
                }
            },
            0xd => self.drw(
                instruction.x,
                instruction.y,
                instruction.n as usize,
                &bus.memory,
                &mut bus.display,
            ),
            0xe => match instruction.kk {
                0x9e => self.skp_vx(instruction.x, &mut bus.keyboard),
                0xa1 => self.sknp_vx(instruction.x, &mut bus.keyboard),
                _ => return Err(self.unknown_instruction(&instruction)),
            },
            0xf => match instruction.kk {
                0x07 => self.ld_vx_dt(instruction.x),
                0x0a => self.ld_vx_k(instruction.x, &mut bus.keyboard),
                0x15 => self.ld_dt_vx(instruction.x),
                0x18 => self.ld_st_vx(instruction.x),
                0x1e => self.add_i_vx(instruction.x),
                0x29 => self.ld_f_vx(instruction.x),
                0x33 => self.ld_bcd_vx(instruction.x, &mut bus.memory),
                0x55 => self.ld_i_vx(instruction.x, &mut bus.memory),
                0x65 => self.ld_vx_i(instruction.x, &bus.memory),
                _ => return Err(self.unknown_instruction(&instruction)),
            },
            _ => return Err(self.unknown_instruction(&instruction)),
        }

        assert((MachineView { cpu: self@, bus: bus@ }) == before.dispatch(instruction, random));

        if instruction.first != 0x2 && instruction.first != 0x1 && instruction.raw_bytes != 0x00ee {
            // jumps, calls and returns have set the program counter themselves
            self.program_counter = self.program_counter.wrapping_add(2);
        }
        assert((MachineView { cpu: self@, bus: bus@ }) == before.execute(instruction, random));
        Ok(())
    }

    /// The error for an opcode that the dispatch table has no entry for.
    pub fn unknown_instruction(&self, instruction: &Instruction) -> (error:
        UnknownInstructionError)
        ensures
            error.raw_opcode == instruction.raw_bytes,
    {
        UnknownInstructionError { raw_opcode: instruction.raw_bytes }
    }
}

/// A call and the return that follows it: the call goes to its address and
/// leaves the address of the instruction after it on the stack; the return
/// goes on at exactly that address, with the stack pointer as it was before
/// the call. Registers and timers are not touched.
pub proof fn lemma_call_then_ret(c: CpuView, addr: u16)
    requires
        c.wf(),
        c.sp < 16,
    ensures
        c.call(addr).pc == addr,
        c.call(addr).sp == c.sp + 1,
        c.call(addr).stack[c.sp as int] == wrap16(c.pc + 2),
        c.pc + 2 <= 0xffff ==> c.call(addr).stack[c.sp as int] == c.pc + 2,
        c.call(addr).ret() == (CpuView {
            pc: wrap16(c.pc + 2),
            stack: c.stack.update(c.sp as int, wrap16(c.pc + 2)),
            ..c
        }),
{
}

/// `3xkk` and `4xkk`: the program counter moves on by four in all, two for
/// the instruction and two for the one skipped, where the condition holds
/// (`Vx == kk` for `3xkk`, `Vx != kk` for `4xkk`), and by two where it does
/// not. Nothing else changes. The program counter wraps at sixteen bits.
pub proof fn lemma_skip_moves_pc(m: MachineView, i: Instruction, random: u8)
    requires
        i.wf(),
        i.first == 0x3 || i.first == 0x4,
    ensures
        ({
            let holds = if i.first == 0x3 {
                m.cpu.v[i.x as int] == i.kk
            } else {
                m.cpu.v[i.x as int] != i.kk
            };
            let step: int = if holds {
                4
            } else {
                2
            };
            &&& m.execute(i, random) == m.with_cpu(
                CpuView { pc: wrap16(m.cpu.pc + step), ..m.cpu },
            )
            &&& m.cpu.pc + 4 <= 0xffff ==> m.execute(i, random).cpu.pc == m.cpu.pc + step
        }),
{
    let bytes = i.raw_bytes;
    assert(bytes == 0x00ee ==> bytes >> 12 == 0) by (bit_vector);
    lemma_decode_fields(bytes);
}

/// `Fx0A` with no key down leaves the machine exactly as it was: the program
/// counter still stands at the instruction, which is fetched again at the
/// next step.
pub proof fn lemma_wait_for_key_repeats(m: MachineView, i: Instruction, random: u8)
    requires
        i.wf(),
        i.first == 0xf,
        i.kk == 0x0a,
        m.bus.keys.pressed == 0,
    ensures
        m.execute(i, random) == m,
{
    let bytes = i.raw_bytes;
    assert(bytes == 0x00ee ==> bytes >> 12 == 0) by (bit_vector);
    lemma_decode_fields(bytes);
}

/// The timers never go below zero: after `n` ticks each timer is down by `n`,
/// or at zero if it held less than `n`, and a timer at zero stays at zero
/// however often it is ticked. Nothing else changes.
pub proof fn lemma_timers_floor_at_zero(c: CpuView, n: nat)
    ensures
        c.ticks(n) == (CpuView {
            delay: if c.delay >= n {
                (c.delay - n) as u8
            } else {
                0
            },
            sound: if c.sound >= n {
                (c.sound - n) as u8
            } else {
                0
            },
            ..c
        }),
        c.delay == 0 ==> c.ticks(n).delay == 0,
        c.sound == 0 ==> c.ticks(n).sound == 0,
    decreases n,
{
    if n > 0 {
        lemma_timers_floor_at_zero(c.tick(), (n - 1) as nat);
    }
}

} // verus!
