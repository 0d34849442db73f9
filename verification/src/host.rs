use vstd::prelude::*;

verus! {

/// Tone selections that the console can ask the host to play.
#[derive(Debug, PartialEq, Clone, Copy)]
pub enum Sound {
    Silence,
    Frequency1Khz,
    Frequency500Hz,
    Frequency120Hz,
}

/// The console keys and the two controllers' eight inputs each.
pub enum Key {
    Reset,

    Time,
    Mode,
    Hold,
    Start,

    Right0,
    Left0,
    Back0,
    Forward0,
    CounterClockwise0,
    Clockwise0,
    Pull0,
    Push0,

    Right1,
    Left1,
    Back1,
    Forward1,
    CounterClockwise1,
    Clockwise1,
    Pull1,
    Push1,
}

/// Capability surface that a host lends to the core: emit a tone, write one
/// pixel, and report whether a named key is held. The core only invokes these;
/// nothing is promised about their effects, so every contract of the core is
/// stated over the CPU state alone.
pub trait ChannelF {
    fn sound(&self, frequency: Sound);

    fn set_pixel(&self, x: u8, y: u8, value: u8);

    fn key_pressed(&self, key: Key) -> bool;
}

} // verus!
