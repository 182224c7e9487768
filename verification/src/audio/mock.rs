use crate::audio::AudioSource;
use vstd::prelude::*;

verus! {

/// A tone that only remembers whether it is sounding, for tests.
pub struct MockAudioSource {
    pub is_playing: bool,
}

impl Default for MockAudioSource {
    fn default() -> (audio: MockAudioSource)
        ensures
            !audio.playing(),
    {
        MockAudioSource { is_playing: false }
    }
}

impl AudioSource for MockAudioSource {
    open spec fn playing(&self) -> bool {
        self.is_playing
    }

    fn initialize(&mut self)
        ensures
            !final(self).playing(),
    {
        self.is_playing = false;
    }

    fn start_sound(&mut self) {
        self.is_playing = true;
    }

    fn stop_sound(&mut self) {
        self.is_playing = false;
    }
}

} // verus!
