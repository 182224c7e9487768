use moldy_chip::chip8::Chip8;
use moldy_chip::chip8::Chip8Platform::MOCK;
use moldy_chip::display::mock::MockDisplay;
use moldy_chip::display::{Bitmap, Display};
use moldy_chip::instruction::Instruction;
use std::cell::RefCell;
use std::rc::Rc;

/// What a display was asked to do.
#[derive(Debug, PartialEq, Clone, Copy)]
enum Call {
    Clear,
    Get(usize, usize),
    Draw(usize, usize, u32, bool),
}

/// A display that writes down every call before it passes it on.
struct RecordingDisplay {
    screen: MockDisplay,
    calls: Rc<RefCell<Vec<Call>>>,
}

impl Display for RecordingDisplay {
    fn bitmap(&self) -> Bitmap {
        unreachable!("contracts only")
    }

    fn clear(&mut self) {
        self.calls.borrow_mut().push(Call::Clear);
        self.screen.clear();
    }

    fn get_width(&self) -> usize {
        self.screen.get_width()
    }

    fn get_height(&self) -> usize {
        self.screen.get_height()
    }

    fn draw_pixel(&mut self, x: usize, y: usize, pixel_size: u32, turn_on: bool) {
        self.calls.borrow_mut().push(Call::Draw(x, y, pixel_size, turn_on));
        self.screen.draw_pixel(x, y, pixel_size, turn_on);
    }

    fn get_pixel(&self, x: usize, y: usize) -> bool {
        self.calls.borrow_mut().push(Call::Get(x, y));
        self.screen.get_pixel(x, y)
    }

    fn initialize(&mut self) {}
}

fn recording_machine() -> (Chip8, Rc<RefCell<Vec<Call>>>) {
    let calls = Rc::new(RefCell::new(Vec::new()));
    let mut chip8 = Chip8::new(MOCK);
    chip8.bus.display = Box::new(RecordingDisplay {
        screen: MockDisplay::default(),
        calls: calls.clone(),
    });
    (chip8, calls)
}

#[test]
fn every_pixel_of_a_sprite_is_queried_and_then_drawn() {
    let (mut chip8, calls) = recording_machine();
    chip8.bus.memory[0x300] = 0b1010_0000;
    chip8.bus.memory[0x301] = 0b0000_0001;
    chip8.cpu.address_i = 0x300;
    chip8.cpu.v_registers[0] = 2;
    chip8.cpu.v_registers[1] = 3;
    chip8.cpu.execute_instruction(Instruction::new(0xd012), &mut chip8.bus).unwrap();
    assert_eq!(
        *calls.borrow(),
        vec![
            Call::Get(2, 3),
            Call::Draw(2, 3, 20, true),
            Call::Get(4, 3),
            Call::Draw(4, 3, 20, true),
            Call::Get(9, 4),
            Call::Draw(9, 4, 20, true),
        ]
    );
    calls.borrow_mut().clear();
    chip8.cpu.execute_instruction(Instruction::new(0xd011), &mut chip8.bus).unwrap();
    assert_eq!(
        *calls.borrow(),
        vec![
            Call::Get(2, 3),
            Call::Draw(2, 3, 20, false),
            Call::Get(4, 3),
            Call::Draw(4, 3, 20, false),
        ]
    );
    assert_eq!(chip8.cpu.v_registers[0xf], 1);
}

#[test]
fn clipped_pixels_are_neither_queried_nor_drawn() {
    let (mut chip8, calls) = recording_machine();
    chip8.bus.memory[0x300] = 0xff;
    chip8.bus.memory[0x301] = 0xff;
    chip8.cpu.address_i = 0x300;
    chip8.cpu.v_registers[0] = 62;
    chip8.cpu.v_registers[1] = 31;
    chip8.cpu.execute_instruction(Instruction::new(0xd012), &mut chip8.bus).unwrap();
    assert_eq!(
        *calls.borrow(),
        vec![
            Call::Get(62, 31),
            Call::Draw(62, 31, 20, true),
            Call::Get(63, 31),
            Call::Draw(63, 31, 20, true),
        ]
    );
}

#[test]
fn clear_screen_and_reset_go_through_the_display() {
    let (mut chip8, calls) = recording_machine();
    chip8.cpu.execute_instruction(Instruction::new(0x00e0), &mut chip8.bus).unwrap();
    assert_eq!(*calls.borrow(), vec![Call::Clear]);
    chip8.reset();
    assert_eq!(*calls.borrow(), vec![Call::Clear, Call::Clear]);
}

#[test]
fn other_instructions_leave_the_display_alone() {
    let (mut chip8, calls) = recording_machine();
    for raw in [0x6123u16, 0x7101, 0x8120, 0xa300, 0xf11e, 0xf133, 0x1300, 0x2400, 0x00ee] {
        chip8.cpu.execute_instruction(Instruction::new(raw), &mut chip8.bus).unwrap();
    }
    assert!(calls.borrow().is_empty());
}
