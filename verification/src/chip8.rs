use crate::audio::mock::MockAudioSource;
use crate::audio::AudioSource;
use crate::cpu::{CpuView, CPU};
use crate::display::mock::MockDisplay;
use crate::display::null::NullDisplay;
use crate::display::{Bitmap, Display};
use crate::error::UnknownInstructionError;
use crate::instruction::{big_endian_word, decode, Instruction};
use crate::keyboard::browser::{browser_key, BrowserKeyboard};
use crate::keyboard::mock::MockKeyboard;
use crate::keyboard::{Keyboard, Keys};
use vstd::prelude::*;

verus! {

/// Size of the memory, in bytes.
pub const MEMORY_SIZE: usize = 4096;

/// Where in memory programs are loaded, and where execution starts.
pub const ROM_START_ADDRESS: usize = 0x200;

/// Where in memory the glyphs of the sixteen hexadecimal digits start.
pub const FONT_START_ADDRESS: usize = 0x0;

/// The glyphs of the digits 0 to F, five rows of eight pixels each.
pub const FONT_MAP: [u8; 80] = [
    0xF0, 0x90, 0x90, 0x90, 0xF0,  // 0
    0x20, 0x60, 0x20, 0x20, 0x70,  // 1
    0xF0, 0x10, 0xF0, 0x80, 0xF0,  // 2
    0xF0, 0x10, 0xF0, 0x10, 0xF0,  // 3
    0x90, 0x90, 0xF0, 0x10, 0x10,  // 4
    0xF0, 0x80, 0xF0, 0x10, 0xF0,  // 5
    0xF0, 0x80, 0xF0, 0x90, 0xF0,  // 6
    0xF0, 0x10, 0x20, 0x40, 0x40,  // 7
    0xF0, 0x90, 0xF0, 0x90, 0xF0,  // 8
    0xF0, 0x90, 0xF0, 0x10, 0xF0,  // 9
    0xF0, 0x90, 0xF0, 0x90, 0x90,  // A
    0xE0, 0x90, 0xE0, 0x90, 0xE0,  // B
    0xF0, 0x80, 0x80, 0x80, 0xF0,  // C
    0xE0, 0x90, 0x90, 0x90, 0xE0,  // D
    0xF0, 0x80, 0xF0, 0x80, 0xF0,  // E
    0xF0, 0x80, 0xF0, 0x80, 0x80,  // F
];

/// The kind of host a machine is built for.
#[allow(non_camel_case_types)]
pub enum Chip8Platform {
    /// A browser: key codes are those of its keyboard events. The screen and
    /// the tone are held in memory until the host installs its own.
    BROWSER,
    /// No host: screen, keys and tone are held in memory, for tests.
    MOCK,
}

/// What the processor works on: the memory and the three devices.
pub struct Chip8Bus {
    pub memory: [u8; 4096],
    pub display: Box<dyn Display>,
    pub keyboard: Box<dyn Keyboard>,
    pub audio: Box<dyn AudioSource>,
}

/// The state of the bus as plain values.
#[verifier::ext_equal]
pub ghost struct BusView {
    pub memory: Seq<u8>,
    /// What the display shows.
    pub screen: Bitmap,
    /// What the keyboard holds.
    pub keys: Keys,
    /// The tone is sounding.
    pub playing: bool,
}

impl View for Chip8Bus {
    type V = BusView;

    open spec fn view(&self) -> BusView {
        BusView {
            memory: self.memory@,
            screen: self.display.bitmap(),
            keys: self.keyboard.keys(),
            playing: self.audio.playing(),
        }
    }
}

impl BusView {
    /// The bus of a new machine: memory is all zero, the screen is blank and
    /// of the standard size, no key is down and the tone is silent. On a
    /// browser the key codes are those of its keyboard events; without a host
    /// a key code is the key itself.
    pub open spec fn initial(platform: Chip8Platform) -> BusView {
        BusView {
            memory: Seq::new(4096, |a: int| 0u8),
            screen: Bitmap::blank(64, 32),
            keys: Keys {
                pressed: 0,
                key_of: match platform {
                    Chip8Platform::BROWSER => |code: u8| browser_key(code),
                    Chip8Platform::MOCK => |code: u8| code,
                },
            },
            playing: false,
        }
    }
}

/// Memory after the glyphs were written to its first eighty bytes.
pub open spec fn font_loaded(memory: Seq<u8>) -> Seq<u8> {
    Seq::new(
        memory.len(),
        |a: int|
            if 0 <= a < 80 {
                FONT_MAP@[a]
            } else {
                memory[a]
            },
    )
}

/// Memory after a program was copied to it from address 0x200 on.
pub open spec fn rom_loaded(memory: Seq<u8>, rom: Seq<u8>) -> Seq<u8> {
    Seq::new(
        memory.len(),
        |a: int|
            if 0x200 <= a < 0x200 + rom.len() {
                rom[a - 0x200]
            } else {
                memory[a]
            },
    )
}

impl Chip8Bus {
    /// A bus with zeroed memory and the devices of the given kind of host.
    pub fn new(platform: Chip8Platform) -> (bus: Chip8Bus)
        ensures
            bus@ == BusView::initial(platform),
    {
        match platform {
            Chip8Platform::BROWSER => Chip8Bus {
                memory: [0; 4096],
                display: Box::new(NullDisplay::default()),
                keyboard: Box::new(BrowserKeyboard::default()),
                audio: Box::new(MockAudioSource::default()),
            },
            Chip8Platform::MOCK => Chip8Bus {
                memory: [0; 4096],
                display: Box::new(MockDisplay::default()),
                keyboard: Box::new(MockKeyboard::default()),
                audio: Box::new(MockAudioSource::default()),
            },
        }
    }
}

/// The state of the whole machine as plain values.
#[verifier::ext_equal]
pub ghost struct MachineView {
    pub cpu: CpuView,
    pub bus: BusView,
}

impl MachineView {
    /// The instruction at the program counter: the two bytes there, the high
    /// byte first, decoded.
    pub open spec fn fetched(self) -> Instruction {
        decode(
            big_endian_word(
                self.bus.memory[self.cpu.pc as int],
                self.bus.memory[self.cpu.pc + 1],
            ),
        )
    }

    /// One step can be made: the two bytes at the program counter lie within
    /// memory, and the instruction they hold can be executed.
    pub open spec fn steppable(self) -> bool {
        self.cpu.pc + 1 < self.bus.memory.len() && self.ready(self.fetched())
    }

    /// The machine after one step, if the instruction at the program counter
    /// is one that the dispatch table knows.
    pub open spec fn step(self, random: u8) -> MachineView {
        self.execute(self.fetched(), random)
    }
}

/// The machine: a processor and the bus it works on.
pub struct Chip8 {
    pub cpu: CPU,
    pub bus: Chip8Bus,
}

impl View for Chip8 {
    type V = MachineView;

    open spec fn view(&self) -> MachineView {
        MachineView { cpu: self.cpu@, bus: self.bus@ }
    }
}

impl Chip8 {
    /// A machine in its initial state, with the devices of the given kind of
    /// host. Memory is all zero: the glyphs are written by `reset`.
    pub fn new(platform: Chip8Platform) -> (machine: Chip8)
        ensures
            machine@ == (MachineView { cpu: CpuView::initial(), bus: BusView::initial(platform) }),
    {
        Chip8 { cpu: CPU::default(), bus: Chip8Bus::new(platform) }
    }

    /// Puts the processor back into its initial state, blanks the screen and
    /// writes the glyphs to the start of memory. Memory beyond the glyphs,
    /// where a program may be loaded, stays as it is, and so do the key latch
    /// and the tone.
    pub fn reset(&mut self)
        ensures
            final(self)@ == (MachineView {
                cpu: CpuView::initial(),
                bus: BusView {
                    memory: font_loaded(old(self)@.bus.memory),
                    screen: old(self)@.bus.screen.cleared(),
                    ..old(self)@.bus
                },
            }),
    {
        self.cpu.reset(&mut self.bus.display);
        self.load_font_into_memory();
    }

    /// Copies a program into memory from address 0x200 on. The program has to
    /// fit: there is room for 3584 bytes.
    pub fn load_rom_into_memory(&mut self, rom_bytes: &[u8])
        requires
            0x200 + rom_bytes@.len() <= 4096,
        ensures
            final(self)@ == (MachineView {
                bus: BusView {
                    memory: rom_loaded(old(self)@.bus.memory, rom_bytes@),
                    ..old(self)@.bus
                },
                ..old(self)@
            }),
    {
        let mut index: usize = 0;
        while index < rom_bytes.len()
            invariant
                index <= rom_bytes@.len(),
                0x200 + rom_bytes@.len() <= 4096,
                self.cpu == old(self).cpu,
                self.bus.display == old(self).bus.display,
                self.bus.keyboard == old(self).bus.keyboard,
                self.bus.audio == old(self).bus.audio,
                self.bus.memory@ == rom_loaded(
                    old(self).bus.memory@,
                    rom_bytes@.subrange(0, index as int),
                ),
            decreases rom_bytes@.len() - index,
        {
            self.bus.memory[ROM_START_ADDRESS + index] = rom_bytes[index];
            index += 1;
        }
    }

    /// Writes the glyphs to the first eighty bytes of memory.
    pub fn load_font_into_memory(&mut self)
        ensures
            final(self)@ == (MachineView {
                bus: BusView { memory: font_loaded(old(self)@.bus.memory), ..old(self)@.bus },
                ..old(self)@
            }),
    {
        let mut index: usize = 0;
        while index < 80
            invariant
                index <= 80,
                self.cpu == old(self).cpu,
                self.bus.display == old(self).bus.display,
                self.bus.keyboard == old(self).bus.keyboard,
                self.bus.audio == old(self).bus.audio,
                forall|a: int|
                    0 <= a < 4096 ==> self.bus.memory@[a] == if a < index {
                        FONT_MAP@[a]
                    } else {
                        old(self).bus.memory@[a]
                    },
            decreases 80 - index,
        {
            self.bus.memory[FONT_START_ADDRESS + index] = FONT_MAP[index];
            index += 1;
        }
    }
    /// Reads and decodes the instruction at the program counter.
    pub fn fetch_instruction(&self) -> (instruction: Instruction)
        requires
            self.cpu.program_counter + 1 < 4096,
        ensures
            instruction == self@.fetched(),
            instruction.wf(),
    {
        let bytes = (self.bus.memory[self.cpu.program_counter as usize] as u16) << 8 | (
        self.bus.memory[self.cpu.program_counter as usize + 1] as u16);

        Instruction::new(bytes)
    }

    /// Whether `fetch_and_execute_instruction` may be called: see
    /// [`MachineView::steppable`].
    pub fn can_step(&self) -> (ok: bool)
        ensures
            ok == self@.steppable(),
    {
        if self.cpu.program_counter as usize + 1 < self.bus.memory.len() {
            let instruction = self.fetch_instruction();
            self.cpu.is_ready(&instruction, &self.bus)
        } else {
            false
        }
    }

    /// One step of the machine: fetches the instruction at the program
    /// counter, decodes it and executes it.
    ///
    /// An opcode that the dispatch table has no entry for is an error that
    /// carries the opcode, and changes nothing.
    pub fn fetch_and_execute_instruction(&mut self) -> (result: Result<
        (),
        UnknownInstructionError,
    >)
        requires
            old(self)@.steppable(),
        ensures
            result is Ok <==> old(self)@.fetched().known(),
            result is Ok ==> exists|random: u8| final(self)@ == #[trigger] old(self)@.step(random),
            result matches Err(error) ==> error.raw_opcode == old(self)@.fetched().raw_bytes
                && final(self)@ == old(self)@,
    {
        let ghost before = self@;
        let instruction = self.fetch_instruction();
        let result = self.cpu.execute_instruction(instruction, &mut self.bus);
        proof {
            if result is Ok {
                let random = choose|random: u8|
                    self@ == #[trigger] before.execute(instruction, random);
                assert(self@ == before.step(random));
            }
        }
        result
    }
}

} // verus!
