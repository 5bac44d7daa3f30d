//! Oscillator waveforms and commands.

use vstd::prelude::*;

verus! {

/// Shapes an oscillator can produce.
#[derive(Copy, Clone, Debug, PartialEq, Eq, Structural)]
pub enum Waveform {
    Sin,
    Triangle,
    Square,
    SuperSaw,
    Noise,
}

impl Default for Waveform {
    fn default() -> (r: Self)
        ensures
            r == Waveform::Square,
    {
        Waveform::Square
    }
}

impl Waveform {
    pub open spec fn spec_from_u32(x: u32) -> Waveform {
        if x == 1 {
            Waveform::Triangle
        } else if x == 2 {
            Waveform::Sin
        } else if x == 3 {
            Waveform::SuperSaw
        } else if x == 4 {
            Waveform::Noise
        } else {
            Waveform::Square
        }
    }

    /// Decodes the waveform number of a command; unknown numbers give `Square`.
    pub fn from_u32(x: u32) -> (r: Self)
        ensures
            r == Self::spec_from_u32(x),
    {
        match x {
            1 => Waveform::Triangle,
            2 => Waveform::Sin,
            3 => Waveform::SuperSaw,
            4 => Waveform::Noise,
            _ => Waveform::Square,
        }
    }

    /// The waveform number of a command.
    pub open spec fn spec_to_u32(self) -> u32 {
        match self {
            Waveform::Square => 0,
            Waveform::Triangle => 1,
            Waveform::Sin => 2,
            Waveform::SuperSaw => 3,
            Waveform::Noise => 4,
        }
    }

    /// The waveform number of a command.
    pub fn to_u32(&self) -> (r: u32)
        ensures
            r == self.spec_to_u32(),
    {
        match self {
            Waveform::Square => 0,
            Waveform::Triangle => 1,
            Waveform::Sin => 2,
            Waveform::SuperSaw => 3,
            Waveform::Noise => 4,
        }
    }
}

/// Decoding the number of a waveform gives the waveform back.
pub proof fn law_waveform_round_trip(w: Waveform)
    ensures
        Waveform::spec_from_u32(w.spec_to_u32()) == w,
{
}

/// Every number decodes to a waveform whose number is the same, or to `Square` (number 0).
pub proof fn law_waveform_numbers(x: u32)
    ensures
        Waveform::spec_from_u32(x).spec_to_u32() == (if x <= 4 { x } else { 0 }),
{
}

/// Commands an oscillator takes.
#[derive(Copy, Clone, Debug, PartialEq, Eq, Structural)]
pub enum OscillatorCommand {
    SetWaveform(Waveform),
    Reset,
    SetPhase { phase: u8, value: i16 },
    SetParam { param: u8, value: i16 },
}

} // verus!
