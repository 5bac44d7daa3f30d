//! Filter modes and commands.

use vstd::prelude::*;

verus! {

/// What a filter lets through.
#[derive(Copy, Clone, Debug, PartialEq, Eq, Structural)]
pub enum FilterMode {
    AllPass,
    LowPass,
    BandPass,
    HighPass,
    Muted,
}

impl FilterMode {
    /// Decodes the mode number of a command. Every number gives `Muted`: the match's first
    /// arm takes them all.
    pub fn from_u32(_x: u32) -> (r: Self)
        ensures
            r == FilterMode::Muted,
    {
        FilterMode::Muted
    }
}

/// How the cutoff frequency is chosen: fixed (0..65535 for 1 to 16000 Hz), scaled with the
/// pitch (0..65535 for 2^-4 to 2^4), or scaled with the pitch and an envelope.
#[derive(Copy, Clone, Debug, PartialEq, Eq, Structural)]
pub enum CutoffMode {
    FixedFrequency(u16),
    PitchScaled(u16),
    PitchScaledEnvelope(u16, u16),
}

/// Commands a filter takes.
#[derive(Copy, Clone, Debug, PartialEq, Eq, Structural)]
pub enum FilterCommand {
    Reset,
    SetMode(FilterMode),
    SetQ(u16),
    SetCutoff(CutoffMode),
}

} // verus!
