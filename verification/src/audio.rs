use vstd::prelude::*;

pub mod mock;

verus! {

/// A tone that is either sounding or silent.
///
/// Starting and stopping are idempotent: they say what the tone is to be,
/// whatever it was. The contracts bind every implementation, including those
/// of a host that were not verified.
pub trait AudioSource {
    /// The tone is sounding.
    spec fn playing(&self) -> bool;

    /// One-time setup.
    fn initialize(&mut self);

    fn start_sound(&mut self)
        ensures
            final(self).playing(),
    ;

    fn stop_sound(&mut self)
        ensures
            !final(self).playing(),
    ;
}

} // verus!
