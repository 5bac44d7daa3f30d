//! The sound unit: envelopes, the engine's envelope and mix state, and the command types of
//! its voices.

pub mod envelope;
pub mod oscillator;
pub mod filter;
pub mod lfo;
pub mod pitch;
pub mod voice;
pub mod engine;
