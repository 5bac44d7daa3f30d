//! Pitch modes and commands.

use vstd::prelude::*;

verus! {

/// How the pitch moves toward its target.
#[derive(Copy, Clone, Debug, PartialEq, Eq, Structural)]
pub enum PitchMode {
    Constant,
    PortamentoQuadratic,
}

impl Default for PitchMode {
    fn default() -> (r: Self)
        ensures
            r == PitchMode::Constant,
    {
        PitchMode::Constant
    }
}

impl PitchMode {
    pub open spec fn spec_from_u32(x: u32) -> PitchMode {
        if x == 1 {
            PitchMode::PortamentoQuadratic
        } else {
            PitchMode::Constant
        }
    }

    /// Decodes the pitch mode number of a command; other numbers give `Constant`.
    pub fn from_u32(x: u32) -> (r: Self)
        ensures
            r == Self::spec_from_u32(x),
    {
        match x {
            1 => PitchMode::PortamentoQuadratic,
            _ => PitchMode::Constant,
        }
    }
}

/// Commands a pitch unit takes.
#[derive(Copy, Clone, Debug, PartialEq, Eq, Structural)]
pub enum PitchCommand {
    SetTarget(u16),
    SetSpeed(u16),
    SetMode(PitchMode),
    Finish,
    SetLfo(Option<usize>),
    SetModDepth(u16),
}

} // verus!
