//! Commands of a voice.

use vstd::prelude::*;
use super::lfo::LfoCommand;
use super::oscillator::OscillatorCommand;
use super::filter::FilterCommand;
use super::pitch::PitchCommand;

verus! {

/// A command for one part of a voice; an LFO command names one of the voice's LFOs.
#[derive(Copy, Clone, Debug, PartialEq, Eq)]
pub enum VoiceCommand {
    Lfo(LfoCommand, usize),
    Oscillator(OscillatorCommand),
    Filter(FilterCommand),
    Pitch(PitchCommand),
}

} // verus!
