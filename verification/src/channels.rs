//! Channel identifiers: the trigger inputs that can request ducking and the
//! input/output channels of the device's routing matrix.

use vstd::prelude::*;

verus! {

/// A source whose activity can request ducking.  Only the microphone exists
/// today; the aggregator in [`crate::calculator`] is written against a set of
/// these so that further sources can be added without touching the state
/// machine.
#[derive(Clone, Copy, Debug, PartialEq, Eq, Structural)]
pub enum DuckingInput {
    Mic,
}

/// An input channel of the routing matrix.
#[derive(Clone, Copy, Debug, PartialEq, Eq, Structural)]
pub enum InputChannel {
    Microphone,
    Chat,
    Music,
    Game,
    Console,
    LineIn,
    System,
    Sample,
}

/// An output channel of the routing matrix.
#[derive(Clone, Copy, Debug, PartialEq, Eq, Structural)]
pub enum OutputChannel {
    Headphones,
    StreamMix,
    LineOut,
    ChatMic,
    Sampler,
}

} // verus!
