//! Tactile feedback cues: a catalog of named cues, each an ordered list of
//! pulses with pauses between them, and a sequencer that turns such a list
//! into the fire and sleep actions a host performs.

pub mod catalog;
pub mod laws;
pub mod pattern;
pub mod scrub;
pub mod sequencer;
