//! Low-frequency oscillator waveforms and commands.

use vstd::prelude::*;

verus! {

/// Shapes a low-frequency oscillator can produce.
#[derive(Copy, Clone, Debug, PartialEq, Eq, Structural)]
pub enum Waveform {
    DC,
    Sin,
    Triangle,
    Sawtooth,
    Square,
}

impl Default for Waveform {
    fn default() -> (r: Self)
        ensures
            r == Waveform::DC,
    {
        Waveform::DC
    }
}

impl Waveform {
    pub open spec fn spec_from_u8(x: u8) -> Option<Waveform> {
        if x == 0 {
            Some(Waveform::DC)
        } else if x == 1 {
            Some(Waveform::Sin)
        } else if x == 2 {
            Some(Waveform::Triangle)
        } else if x == 3 {
            Some(Waveform::Sawtooth)
        } else if x == 4 {
            Some(Waveform::Square)
        } else {
            None
        }
    }

    /// Decodes the waveform number of a command.
    pub fn from_u8(x: u8) -> (r: Option<Self>)
        ensures
            r == Self::spec_from_u8(x),
    {
        match x {
            0 => Some(Waveform::DC),
            1 => Some(Waveform::Sin),
            2 => Some(Waveform::Triangle),
            3 => Some(Waveform::Sawtooth),
            4 => Some(Waveform::Square),
            _ => None,
        }
    }
}

/// Commands a low-frequency oscillator takes.
#[derive(Copy, Clone, Debug, PartialEq, Eq, Structural)]
pub enum LfoCommand {
    Reset,
    SetSpeed(u16),
    SetWaveform(Waveform),
    SetOffset(u16),
}

} // verus!
