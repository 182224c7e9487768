use moldy_chip::chip8::Chip8;
use moldy_chip::chip8::Chip8Platform::{BROWSER, MOCK};
use moldy_chip::keyboard::browser::BrowserKeyboard;
use moldy_chip::keyboard::mock::MockKeyboard;
use moldy_chip::keyboard::null::NullKeyboard;
use moldy_chip::keyboard::Keyboard;
use moldy_chip::{key_down, key_up};

#[test]
fn mock_keyboard_latches_any_code() {
    let mut keyboard = MockKeyboard::default();
    assert_eq!(keyboard.get_key(), 0);
    keyboard.set_key(0xd);
    assert_eq!(keyboard.get_key(), 0xd);
    assert_eq!(keyboard.get_key(), 0xd);
    keyboard.set_key(200);
    assert_eq!(keyboard.get_key(), 200);
    keyboard.set_key(0);
    assert_eq!(keyboard.get_key(), 0);
    keyboard.set_key(5);
    keyboard.initialize();
    assert_eq!(keyboard.get_key(), 0);
}

#[test]
fn null_keyboard_latches_any_code() {
    let mut keyboard = NullKeyboard::default();
    assert_eq!(keyboard.get_key(), 0);
    keyboard.set_key(0x41);
    assert_eq!(keyboard.get_key(), 0x41);
    keyboard.set_key(0);
    assert_eq!(keyboard.get_key(), 0);
    keyboard.set_key(9);
    keyboard.initialize();
    assert_eq!(keyboard.get_key(), 0);
}

#[test]
fn browser_keyboard_maps_digits_and_letters() {
    let mut keyboard = BrowserKeyboard::default();
    assert_eq!(keyboard.get_key(), 0);
    let expected: [(u8, u8); 15] = [
        (49, 0x1), (50, 0x2), (51, 0x3), (52, 0x4), (53, 0x5), (54, 0x6), (55, 0x7), (56, 0x8),
        (57, 0x9), (65, 0xa), (66, 0xb), (67, 0xc), (68, 0xd), (69, 0xe), (70, 0xf),
    ];
    for (code, key) in expected {
        keyboard.set_key(code);
        assert_eq!(keyboard.get_key(), key);
    }
}

#[test]
fn browser_keyboard_releases_on_every_other_code() {
    let mut keyboard = BrowserKeyboard::default();
    let mut code: u16 = 0;
    while code <= 255 {
        let c = code as u8;
        keyboard.set_key(49);
        keyboard.set_key(c);
        let expected = if (49..=57).contains(&c) {
            c - 48
        } else if (65..=70).contains(&c) {
            c - 55
        } else {
            0
        };
        assert_eq!(keyboard.get_key(), expected);
        code += 1;
    }
}

#[test]
fn browser_keyboard_edges_of_the_ranges() {
    let mut keyboard = BrowserKeyboard::default();
    for code in [48u8, 58, 64, 71, 0, 255, 97] {
        keyboard.set_key(65);
        keyboard.set_key(code);
        assert_eq!(keyboard.get_key(), 0);
    }
}

#[test]
fn browser_keyboard_initialize_keeps_the_latch() {
    let mut keyboard = BrowserKeyboard::default();
    keyboard.set_key(66);
    keyboard.initialize();
    assert_eq!(keyboard.get_key(), 0xb);
}

#[test]
fn key_down_and_up_on_a_mock_machine() {
    let mut chip8 = Chip8::new(MOCK);
    key_down(&mut chip8, 0xc);
    assert_eq!(chip8.bus.keyboard.get_key(), 0xc);
    key_up(&mut chip8);
    assert_eq!(chip8.bus.keyboard.get_key(), 0);
    key_down(&mut chip8, 0);
    assert_eq!(chip8.bus.keyboard.get_key(), 0);
}

#[test]
fn key_down_and_up_on_a_browser_machine() {
    let mut chip8 = Chip8::new(BROWSER);
    assert_eq!(chip8.bus.keyboard.get_key(), 0);
    key_down(&mut chip8, 70);
    assert_eq!(chip8.bus.keyboard.get_key(), 0xf);
    key_up(&mut chip8);
    assert_eq!(chip8.bus.keyboard.get_key(), 0);
    key_down(&mut chip8, 13);
    assert_eq!(chip8.bus.keyboard.get_key(), 0);
    assert_eq!(chip8.cpu.program_counter, 0x200);
}
