//! The envelope and mixing state of the sound engine.

use vstd::prelude::*;
use super::envelope::{EnvelopStage, Envelope, EnvelopeCommand};

verus! {

/// Voices of the engine; each has an amplitude envelope and a filter envelope.
pub const VOICE_COUNT: usize = 16;

/// Mix channels: one left/right coefficient pair per voice and per sampler.
pub const MIX_COUNT: usize = 48;

/// Whether an envelope command sent to `target` reaches the amplitude envelope of voice `i`:
/// targets 0 to 15 name one voice, 32 to 47 both envelopes of voice `target - 32`, 0xFF and
/// 0xFE every amplitude envelope.
pub open spec fn reaches_voice_envelope(target: u8, i: int) -> bool {
    ||| target < 16 && i == target
    ||| 32 <= target < 48 && i == target - 32
    ||| target == 0xFF
    ||| target == 0xFE
}

/// Whether an envelope command sent to `target` reaches the filter envelope of voice `i`:
/// targets 16 to 31 name one voice, 32 to 47 both envelopes of voice `target - 32`, 0xFF and
/// 0xFD every filter envelope.
pub open spec fn reaches_filter_envelope(target: u8, i: int) -> bool {
    ||| 16 <= target < 32 && i == target - 16
    ||| 32 <= target < 48 && i == target - 32
    ||| target == 0xFF
    ||| target == 0xFD
}

/// The envelopes and mix coefficients of the sound engine. The voices' oscillators and
/// filters, which compute in floating point, are not part of it.
pub struct Engine {
    pub voice_envelopes: Vec<Envelope>,
    pub filter_envelopes: Vec<Envelope>,
    pub mix_coefficients: Vec<(i16, i16)>,
}

impl Engine {
    /// There is an envelope of each kind per voice and a coefficient pair per mix channel.
    pub open spec fn wf(&self) -> bool {
        &&& self.voice_envelopes@.len() == VOICE_COUNT
        &&& self.filter_envelopes@.len() == VOICE_COUNT
        &&& self.mix_coefficients@.len() == MIX_COUNT
    }

    /// Sends `command` to the envelopes that `target` names (see `reaches_voice_envelope` and
    /// `reaches_filter_envelope`); other targets are ignored.
    pub fn envelope_command(&mut self, target: u8, command: EnvelopeCommand)
        requires
            old(self).wf(),
        ensures
            final(self).wf(),
            final(self).mix_coefficients@ == old(self).mix_coefficients@,
            forall|i: int| 0 <= i < VOICE_COUNT ==> #[trigger] final(self).voice_envelopes@[i] == if reaches_voice_envelope(target, i) {
                old(self).voice_envelopes@[i].spec_send_command(command)
            } else {
                old(self).voice_envelopes@[i]
            },
            forall|i: int| 0 <= i < VOICE_COUNT ==> #[trigger] final(self).filter_envelopes@[i] == if reaches_filter_envelope(target, i) {
                old(self).filter_envelopes@[i].spec_send_command(command)
            } else {
                old(self).filter_envelopes@[i]
            },
    {
        let ghost voices = self.voice_envelopes@;
        let ghost filters = self.filter_envelopes@;
        if target < 16 {
            let mut e = self.voice_envelopes[target as usize];
            e.send_command(command);
            self.voice_envelopes.set(target as usize, e);
        } else if target < 32 {
            let mut e = self.filter_envelopes[(target % 16) as usize];
            e.send_command(command);
            self.filter_envelopes.set((target % 16) as usize, e);
        } else if target < 48 {
            let index = (target % 16) as usize;
            let mut e = self.voice_envelopes[index];
            e.send_command(command);
            self.voice_envelopes.set(index, e);
            let mut f = self.filter_envelopes[index];
            f.send_command(command);
            self.filter_envelopes.set(index, f);
        } else if target == 0xFF {
            send_to_all(&mut self.voice_envelopes, command);
            send_to_all(&mut self.filter_envelopes, command);
        } else if target == 0xFE {
            send_to_all(&mut self.voice_envelopes, command);
        } else if target == 0xFD {
            send_to_all(&mut self.filter_envelopes, command);
        }
    }

    /// Sets a mix coefficient: bit 0 of `channel` picks the right (1) or left (0) side and
    /// the other bits the mix channel, 0 to 47; mix channel 0xFF sets both sides of every
    /// channel. Other channels are ignored.
    pub fn set_mix(&mut self, channel: u16, value: i16)
        requires
            old(self).wf(),
        ensures
            final(self).wf(),
            final(self).voice_envelopes@ == old(self).voice_envelopes@,
            final(self).filter_envelopes@ == old(self).filter_envelopes@,
            ({
                let voice = channel / 2;
                let old_mix = old(self).mix_coefficients@;
                final(self).mix_coefficients@ == if voice < MIX_COUNT {
                    old_mix.update(voice as int, if channel % 2 == 1 {
                        (old_mix[voice as int].0, value)
                    } else {
                        (value, old_mix[voice as int].1)
                    })
                } else if voice == 0xFF {
                    Seq::new(MIX_COUNT as nat, |i: int| (value, value))
                } else {
                    old_mix
                }
            }),
    {
        let right = channel & 1 != 0;
        let voice = channel >> 1;
        proof {
            assert((channel & 1 != 0) == (channel % 2 == 1) && channel >> 1u16 == channel / 2) by (bit_vector);
        }
        if voice < 48 {
            let (l, r) = self.mix_coefficients[voice as usize];
            if right {
                self.mix_coefficients.set(voice as usize, (l, value));
            } else {
                self.mix_coefficients.set(voice as usize, (value, r));
            }
        } else if voice == 0xFF {
            let mut i: usize = 0;
            while i < MIX_COUNT
                invariant
                    self.mix_coefficients@.len() == MIX_COUNT,
                    self.voice_envelopes@ == old(self).voice_envelopes@,
                    self.filter_envelopes@ == old(self).filter_envelopes@,
                    self.voice_envelopes@.len() == VOICE_COUNT,
                    self.filter_envelopes@.len() == VOICE_COUNT,
                    i <= MIX_COUNT,
                    forall|j: int| 0 <= j < i ==> #[trigger] self.mix_coefficients@[j] == (value, value),
                decreases MIX_COUNT - i,
            {
                self.mix_coefficients.set(i, (value, value));
                i = i + 1;
            }
            assert(self.mix_coefficients@ =~= Seq::new(MIX_COUNT as nat, |i: int| (value, value)));
        }
    }
}

impl Default for Engine {
    /// Idle default envelopes and zero mix coefficients.
    fn default() -> (r: Self)
        ensures
            r.wf(),
            forall|i: int| 0 <= i < VOICE_COUNT ==> r.voice_envelopes@[i] == (Envelope { attack: 0, decay: 0, sustain: 0, release: 0, stage: EnvelopStage::Idle, active: false }),
            forall|i: int| 0 <= i < VOICE_COUNT ==> r.filter_envelopes@[i] == (Envelope { attack: 0, decay: 0, sustain: 0, release: 0, stage: EnvelopStage::Idle, active: false }),
            forall|i: int| 0 <= i < MIX_COUNT ==> r.mix_coefficients@[i] == (0i16, 0i16),
    {
        let mut mix_coefficients: Vec<(i16, i16)> = Vec::new();
        while mix_coefficients.len() < MIX_COUNT
            invariant
                mix_coefficients@.len() <= MIX_COUNT,
                forall|i: int| 0 <= i < mix_coefficients@.len() ==> #[trigger] mix_coefficients@[i] == (0i16, 0i16),
            decreases MIX_COUNT - mix_coefficients@.len(),
        {
            mix_coefficients.push((0, 0));
        }
        Engine {
            voice_envelopes: vec![Envelope::default(); VOICE_COUNT],
            filter_envelopes: vec![Envelope::default(); VOICE_COUNT],
            mix_coefficients,
        }
    }
}

/// Sends `command` to every envelope of `envelopes`.
fn send_to_all(envelopes: &mut Vec<Envelope>, command: EnvelopeCommand)
    ensures
        final(envelopes)@.len() == old(envelopes)@.len(),
        forall|i: int| 0 <= i < old(envelopes)@.len() ==> #[trigger] final(envelopes)@[i] == old(envelopes)@[i].spec_send_command(command),
{
    let mut i: usize = 0;
    while i < envelopes.len()
        invariant
            envelopes@.len() == old(envelopes)@.len(),
            i <= envelopes@.len(),
            forall|j: int| 0 <= j < i ==> #[trigger] envelopes@[j] == old(envelopes)@[j].spec_send_command(command),
            forall|j: int| i <= j < envelopes@.len() ==> #[trigger] envelopes@[j] == old(envelopes)@[j],
        decreases envelopes@.len() - i,
    {
        let mut e = envelopes[i];
        e.send_command(command);
        envelopes.set(i, e);
        i = i + 1;
    }
}

} // verus!
