//! An ear-training instrument: pitch and scale arithmetic, phrase generation, the MIDI event
//! bridge, the pitch-matching state machine and the session controller.

pub mod note;
pub mod midi;
pub mod queue;
pub mod matcher;
pub mod session;
