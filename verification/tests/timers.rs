use moldy_chip::audio::mock::MockAudioSource;
use moldy_chip::audio::AudioSource;
use moldy_chip::chip8::Chip8;
use moldy_chip::chip8::Chip8Platform::MOCK;
use moldy_chip::cpu::CPU;
use moldy_chip::handle_timers;
use std::cell::Cell;
use std::rc::Rc;

#[test]
fn timers_count_down_to_zero_and_stay() {
    let mut chip8 = Chip8::new(MOCK);
    chip8.cpu.delay_timer = 3;
    chip8.cpu.sound_timer = 1;
    chip8.cpu.handler_timers(&mut chip8.bus.audio);
    assert_eq!(chip8.cpu.delay_timer, 2);
    assert_eq!(chip8.cpu.sound_timer, 0);
    chip8.cpu.handler_timers(&mut chip8.bus.audio);
    chip8.cpu.handler_timers(&mut chip8.bus.audio);
    assert_eq!(chip8.cpu.delay_timer, 0);
    assert_eq!(chip8.cpu.sound_timer, 0);
    for _ in 0..300 {
        chip8.cpu.handler_timers(&mut chip8.bus.audio);
        assert_eq!(chip8.cpu.delay_timer, 0);
        assert_eq!(chip8.cpu.sound_timer, 0);
    }
}

#[test]
fn timers_at_zero_do_not_underflow() {
    let mut cpu = CPU::default();
    let mut audio: Box<dyn AudioSource> = Box::new(MockAudioSource::default());
    cpu.handler_timers(&mut audio);
    assert_eq!(cpu.delay_timer, 0);
    assert_eq!(cpu.sound_timer, 0);
}

#[test]
fn timers_from_the_top() {
    let mut cpu = CPU::default();
    let mut audio: Box<dyn AudioSource> = Box::new(MockAudioSource::default());
    cpu.delay_timer = 255;
    cpu.sound_timer = 255;
    for n in 1..=255u32 {
        cpu.handler_timers(&mut audio);
        assert_eq!(cpu.delay_timer as u32, 255 - n);
        assert_eq!(cpu.sound_timer as u32, 255 - n);
    }
    cpu.handler_timers(&mut audio);
    assert_eq!(cpu.delay_timer, 0);
    assert_eq!(cpu.sound_timer, 0);
}

#[test]
fn timers_leave_the_rest_alone() {
    let mut cpu = CPU::default();
    let mut audio: Box<dyn AudioSource> = Box::new(MockAudioSource::default());
    cpu.v_registers[3] = 9;
    cpu.address_i = 0x123;
    cpu.program_counter = 0x456;
    cpu.delay_timer = 9;
    cpu.handler_timers(&mut audio);
    assert_eq!(cpu.v_registers[3], 9);
    assert_eq!(cpu.address_i, 0x123);
    assert_eq!(cpu.program_counter, 0x456);
    assert_eq!(cpu.stack_pointer, 0);
}

/// A tone whose state can be watched from outside the machine.
struct WatchedTone {
    playing: Rc<Cell<bool>>,
    starts: Rc<Cell<u32>>,
    stops: Rc<Cell<u32>>,
}

impl AudioSource for WatchedTone {
    fn playing(&self) -> bool {
        self.playing.get()
    }

    fn initialize(&mut self) {}

    fn start_sound(&mut self) {
        self.playing.set(true);
        self.starts.set(self.starts.get() + 1);
    }

    fn stop_sound(&mut self) {
        self.playing.set(false);
        self.stops.set(self.stops.get() + 1);
    }
}

#[test]
fn tone_follows_the_sound_timer_after_the_tick() {
    let playing = Rc::new(Cell::new(false));
    let starts = Rc::new(Cell::new(0));
    let stops = Rc::new(Cell::new(0));
    let mut chip8 = Chip8::new(MOCK);
    chip8.bus.audio = Box::new(WatchedTone {
        playing: playing.clone(),
        starts: starts.clone(),
        stops: stops.clone(),
    });

    chip8.cpu.sound_timer = 3;
    handle_timers(&mut chip8);
    assert_eq!(chip8.cpu.sound_timer, 2);
    assert!(playing.get());
    handle_timers(&mut chip8);
    assert_eq!(chip8.cpu.sound_timer, 1);
    assert!(playing.get());
    // the tick that brings the timer to zero stops the tone
    handle_timers(&mut chip8);
    assert_eq!(chip8.cpu.sound_timer, 0);
    assert!(!playing.get());
    handle_timers(&mut chip8);
    assert!(!playing.get());
    // the signal is given again at every tick
    assert_eq!(starts.get(), 2);
    assert_eq!(stops.get(), 2);
}

#[test]
fn mock_tone_starts_and_stops() {
    let mut audio = MockAudioSource::default();
    assert!(!audio.is_playing);
    audio.start_sound();
    assert!(audio.is_playing);
    audio.start_sound();
    assert!(audio.is_playing);
    audio.stop_sound();
    assert!(!audio.is_playing);
    audio.stop_sound();
    assert!(!audio.is_playing);
    audio.start_sound();
    audio.initialize();
    assert!(!audio.is_playing);
}
