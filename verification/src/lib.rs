//! A CHIP-8 virtual machine: the instruction decoder, the processor with its
//! dispatch table, the memory bus, and the contracts of the three devices
//! that a host supplies: a display, a keyboard and a tone.
//!
//! The machine never schedules anything itself. The host calls [`tick`] once
//! for every instruction and [`handle_timers`] at the timers' own, slower
//! rate.
use vstd::prelude::*;

pub mod audio;
pub mod chip8;
pub mod cpu;
pub mod display;
pub mod error;
pub mod instruction;
pub mod keyboard;

use crate::chip8::{font_loaded, rom_loaded, BusView, Chip8, MachineView};
use crate::cpu::CpuView;
use crate::error::UnknownInstructionError;

verus! {

/// A key of the host went down: its code is handed to the keyboard, which
/// latches the key it stands for. Code 0 releases the latch.
pub fn key_down(emulator: &mut Chip8, key_code: u8)
    ensures
        final(emulator)@ == (MachineView {
            bus: BusView { keys: old(emulator)@.bus.keys.latch(key_code), ..old(emulator)@.bus },
            ..old(emulator)@
        }),
        key_code == 0 ==> final(emulator)@.bus.keys.pressed == 0,
{
    emulator.bus.keyboard.set_key(key_code);
}

/// The key of the host came up: the latch is released.
pub fn key_up(emulator: &mut Chip8)
    ensures
        final(emulator)@ == (MachineView {
            bus: BusView { keys: old(emulator)@.bus.keys.released(), ..old(emulator)@.bus },
            ..old(emulator)@
        }),
{
    emulator.bus.keyboard.set_key(0);
}

/// One step of the machine: see [`Chip8::fetch_and_execute_instruction`].
pub fn tick(emulator: &mut Chip8) -> (result: Result<(), UnknownInstructionError>)
    requires
        old(emulator)@.steppable(),
    ensures
        result is Ok <==> old(emulator)@.fetched().known(),
        result is Ok ==> exists|random: u8|
            final(emulator)@ == #[trigger] old(emulator)@.step(random),
        result matches Err(error) ==> error.raw_opcode == old(emulator)@.fetched().raw_bytes
            && final(emulator)@ == old(emulator)@,
{
    emulator.fetch_and_execute_instruction()
}

/// One tick of the timers: both go down by one unless they are at zero, and
/// the tone sounds exactly if the sound timer is still running afterwards.
pub fn handle_timers(emulator: &mut Chip8)
    ensures
        final(emulator)@ == (MachineView {
            cpu: old(emulator)@.cpu.tick(),
            bus: BusView { playing: old(emulator)@.cpu.tick().sound > 0, ..old(emulator)@.bus },
        }),
{
    emulator.cpu.handler_timers(&mut emulator.bus.audio);
}

/// Loads a program: the machine is reset, the program is copied to address
/// 0x200, and the tone is set up and started. The program has to fit: there
/// is room for 3584 bytes.
pub fn load_rom(emulator: &mut Chip8, rom_bytes: &[u8])
    requires
        0x200 + rom_bytes@.len() <= 4096,
    ensures
        final(emulator)@ == (MachineView {
            cpu: CpuView::initial(),
            bus: BusView {
                memory: rom_loaded(font_loaded(old(emulator)@.bus.memory), rom_bytes@),
                screen: old(emulator)@.bus.screen.cleared(),
                keys: old(emulator)@.bus.keys,
                playing: true,
            },
        }),
{
    emulator.reset();
    emulator.load_rom_into_memory(rom_bytes);

    emulator.bus.audio.initialize();
    emulator.bus.audio.start_sound();
}

} // verus!
