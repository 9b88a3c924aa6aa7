//! Audio the game asks for; playing it is left to the host.
use vstd::prelude::*;

verus! {

/// Background music tracks.
#[derive(Clone, Copy, Debug, PartialEq, Eq, Hash, Structural)]
pub enum MusicId {
    Music0,
}

/// One-shot sound effects.
#[derive(Clone, Copy, Debug, PartialEq, Eq, Hash, Structural)]
pub enum SfxId {
    NewPerk,
    Eat,
    Crash,
    Turbo,
    HungryWorm,
}

/// An audio request signalled by the game.
#[derive(Clone, Copy, Debug, PartialEq, Eq, Structural)]
pub enum AudioCue {
    PlayMusic(MusicId),
    StopMusic,
    PauseMusic,
    ResumeMusic,
    PlaySfx(SfxId),
}

} // verus!
