//! Attack-decay-sustain-release envelopes, stepped once per sample.

use vstd::prelude::*;

verus! {

/// Where an envelope is: the stages count the samples spent in them.
#[derive(Copy, Clone, Debug, PartialEq, Eq, Structural)]
pub enum EnvelopStage {
    Attack(u32),
    Decay(u32),
    Sustain,
    Release(u32),
    Idle,
}

/// An envelope: stage lengths in samples, the sustain level, the stage, and whether the note
/// is held.
#[derive(Copy, Clone, Debug, PartialEq, Eq, Structural)]
pub struct Envelope {
    pub attack: u32,
    pub decay: u32,
    pub sustain: i16,
    pub release: u32,
    pub stage: EnvelopStage,
    pub active: bool,
}

impl Default for Envelope {
    fn default() -> (r: Self)
        ensures
            r == (Envelope { attack: 0, decay: 0, sustain: 0, release: 0, stage: EnvelopStage::Idle, active: false }),
    {
        Self { attack: 0, decay: 0, sustain: 0, release: 0, stage: EnvelopStage::Idle, active: false }
    }
}

/// Commands an envelope takes.
#[derive(Copy, Clone, Debug, PartialEq, Eq, Structural)]
pub enum EnvelopeCommand {
    SetAttack(u32),
    SetDecay(u32),
    SetSustain(i16),
    SetRelease(u32),
    On,
    Off,
    Mute,
}

/// `|a|`.
pub open spec fn abs_int(a: int) -> int {
    if a < 0 { -a } else { a }
}

/// Division rounding toward zero, as on machine integers.
pub open spec fn trunc_div(a: int, b: int) -> int {
    if (a >= 0) == (b > 0) || a == 0 { abs_int(a) / abs_int(b) } else { -(abs_int(a) / abs_int(b)) }
}

/// `a / b` on 32-bit integers, rounding toward zero.
pub fn div_i32(a: i32, b: i32) -> (r: i32)
    requires
        b != 0,
        !(a == i32::MIN && b == -1),
    ensures
        r == trunc_div(a as int, b as int),
{
    let ua: u64 = if a < 0 { (-(a as i64)) as u64 } else { a as u64 };
    let ub: u64 = if b < 0 { (-(b as i64)) as u64 } else { b as u64 };
    let q: u64 = ua / ub;
    proof {
        assert(q <= ua) by (nonlinear_arith) requires q == ua / ub, ub >= 1;
        if ub >= 2 {
            assert(2 * q <= ua) by (nonlinear_arith) requires q == ua / ub, ub >= 2;
        }
        assert(ua == abs_int(a as int) && ub == abs_int(b as int));
    }
    if (a >= 0) == (b > 0) || a == 0 {
        q as i32
    } else {
        (-(q as i64)) as i32
    }
}

/// `x` read as a signed 32-bit value.
pub open spec fn as_i32(x: u32) -> int {
    (x as i32) as int
}

/// Facts about reading unsigned values as signed ones.
proof fn lemma_as_i32(x: u32)
    ensures
        x != 0 ==> as_i32(x) != 0,
        as_i32(x) == -1 <==> x == 0xFFFF_FFFF,
        x <= 0x7FFF_FFFF ==> as_i32(x) == x,
{
    assert(x != 0 ==> (x as i32) != 0i32) by (bit_vector);
    assert(((x as i32) == -1i32) <==> x == 0xFFFF_FFFFu32) by (bit_vector);
    assert(x <= 0x7FFF_FFFFu32 ==> (x as i32) as int == x as int) by (bit_vector);
}

impl Envelope {
    /// Whether the next step stays within the machine integers it computes with.
    pub open spec fn spec_step_in_range(self) -> bool {
        match self.stage {
            EnvelopStage::Attack(t) => t >= self.attack || 0 <= 0x7FFF * as_i32(t) <= i32::MAX,
            EnvelopStage::Decay(t) => t >= self.decay || {
                let prod = (0x7FFF - self.sustain) * as_i32((self.decay - t) as u32);
                &&& i32::MIN <= prod <= i32::MAX
                &&& !(prod == i32::MIN && as_i32(self.decay) == -1)
                &&& i16::MIN <= self.sustain + (trunc_div(prod, as_i32(self.decay)) as i16) <= i16::MAX
            },
            EnvelopStage::Release(t) => t >= self.release || {
                let prod = self.sustain * as_i32((self.release - t) as u32);
                &&& i32::MIN <= prod <= i32::MAX
                &&& !(prod == i32::MIN && as_i32(self.release) == -1)
            },
            _ => true,
        }
    }

    /// The next stage and the level of this sample (`None` once idle). The attack rises from 0
    /// toward 0x7FFF, the decay falls from 0x7FFF toward the sustain level, the release falls
    /// from the sustain level toward 0; a stage ends when its count reaches its length.
    pub open spec fn spec_process(self) -> (EnvelopStage, Option<i16>) {
        match self.stage {
            EnvelopStage::Idle => (EnvelopStage::Idle, None),
            EnvelopStage::Attack(t) => if t >= self.attack {
                (EnvelopStage::Decay(0), Some(0x7FFFi16))
            } else {
                (EnvelopStage::Attack((t + 1) as u32),
                    Some(trunc_div(0x7FFF * as_i32(t), as_i32(self.attack)) as i16))
            },
            EnvelopStage::Decay(t) => if t >= self.decay {
                (if self.active { EnvelopStage::Sustain } else { EnvelopStage::Release(0) }, Some(self.sustain))
            } else {
                let prod = (0x7FFF - self.sustain) * as_i32((self.decay - t) as u32);
                (EnvelopStage::Decay((t + 1) as u32),
                    Some((self.sustain + (trunc_div(prod, as_i32(self.decay)) as i16)) as i16))
            },
            EnvelopStage::Sustain => if self.active {
                (EnvelopStage::Sustain, Some(self.sustain))
            } else {
                (EnvelopStage::Release(0), Some(self.sustain))
            },
            EnvelopStage::Release(t) => if t >= self.release {
                (EnvelopStage::Idle, Some(0i16))
            } else {
                let prod = self.sustain * as_i32((self.release - t) as u32);
                (EnvelopStage::Release((t + 1) as u32), Some(trunc_div(prod, as_i32(self.release)) as i16))
            },
        }
    }

    /// Whether the next step stays within the machine integers it computes with (see
    /// `spec_step_in_range`).
    pub fn step_in_range(&self) -> (r: bool)
        ensures
            r == self.spec_step_in_range(),
    {
        proof {
            lemma_as_i32(self.attack);
            lemma_as_i32(self.decay);
            lemma_as_i32(self.release);
        }
        match self.stage {
            EnvelopStage::Attack(t) => {
                if t >= self.attack {
                    return true;
                }
                let b: i64 = t as i32 as i64;
                assert(-0x8000_0000 * 0x7FFF <= 0x7FFF * b <= 0x7FFF * 0x7FFF_FFFF) by (nonlinear_arith)
                    requires -0x8000_0000 <= b <= 0x7FFF_FFFF;
                let prod: i64 = 0x7FFF * b;
                0 <= prod && prod <= i32::MAX as i64
            },
            EnvelopStage::Decay(t) => {
                if t >= self.decay {
                    return true;
                }
                let a: i64 = 0x7FFF - self.sustain as i64;
                let b: i64 = (self.decay - t) as i32 as i64;
                assert(-0x1_0000 * 0x8000_0000 <= a * b <= 0x1_0000 * 0x8000_0000) by (nonlinear_arith)
                    requires 0 <= a <= 0x1_0000, -0x8000_0000 <= b <= 0x7FFF_FFFF;
                let prod: i64 = a * b;
                if prod < i32::MIN as i64 || prod > i32::MAX as i64 {
                    return false;
                }
                let d = self.decay as i32;
                if prod == i32::MIN as i64 && d == -1 {
                    return false;
                }
                let q = div_i32(prod as i32, d) as i16;
                let level = self.sustain as i32 + q as i32;
                i16::MIN as i32 <= level && level <= i16::MAX as i32
            },
            EnvelopStage::Release(t) => {
                if t >= self.release {
                    return true;
                }
                let a: i64 = self.sustain as i64;
                let b: i64 = (self.release - t) as i32 as i64;
                assert(-0x8000 * 0x8000_0000 <= a * b <= 0x8000 * 0x8000_0000) by (nonlinear_arith)
                    requires -0x8000 <= a <= 0x7FFF, -0x8000_0000 <= b <= 0x7FFF_FFFF;
                let prod: i64 = a * b;
                if prod < i32::MIN as i64 || prod > i32::MAX as i64 {
                    return false;
                }
                !(prod == i32::MIN as i64 && self.release as i32 == -1)
            },
            _ => true,
        }
    }

    /// Steps the envelope by one sample and gives the sample's level.
    pub fn process(&mut self) -> (r: Option<i16>)
        requires
            old(self).spec_step_in_range(),
        ensures
            *final(self) == (Envelope { stage: old(self).spec_process().0, ..*old(self) }),
            r == old(self).spec_process().1,
    {
        proof {
            lemma_as_i32(self.attack);
            lemma_as_i32(self.decay);
            lemma_as_i32(self.release);
        }
        let (stage_next, x) = match self.stage {
            EnvelopStage::Idle => {
                return None;
            },
            EnvelopStage::Attack(t) => {
                if t >= self.attack {
                    (EnvelopStage::Decay(0), 0x7FFFi16)
                } else {
                    let x = div_i32(0x7FFFi32 * (t as i32), self.attack as i32) as i16;
                    (EnvelopStage::Attack(t + 1), x)
                }
            },
            EnvelopStage::Decay(t) => {
                if t >= self.decay {
                    (if self.active { EnvelopStage::Sustain } else { EnvelopStage::Release(0) }, self.sustain)
                } else {
                    let prod = (0x7FFFi32 - self.sustain as i32) * ((self.decay - t) as i32);
                    let x = self.sustain + div_i32(prod, self.decay as i32) as i16;
                    (EnvelopStage::Decay(t + 1), x)
                }
            },
            EnvelopStage::Sustain => {
                if self.active {
                    (EnvelopStage::Sustain, self.sustain)
                } else {
                    (EnvelopStage::Release(0), self.sustain)
                }
            },
            EnvelopStage::Release(t) => {
                if t >= self.release {
                    (EnvelopStage::Idle, 0i16)
                } else {
                    let x = div_i32(self.sustain as i32 * ((self.release - t) as i32), self.release as i32);
                    (EnvelopStage::Release(t + 1), x as i16)
                }
            },
        };
        self.stage = stage_next;
        Some(x)
    }

    /// The envelope after `command`: the setters change one parameter, `On` starts the attack
    /// of a held note, `Off` lets the note go, `Mute` silences at once.
    pub open spec fn spec_send_command(self, command: EnvelopeCommand) -> Envelope {
        match command {
            EnvelopeCommand::SetAttack(value) => Envelope { attack: value, ..self },
            EnvelopeCommand::SetDecay(value) => Envelope { decay: value, ..self },
            EnvelopeCommand::SetSustain(value) => Envelope { sustain: value, ..self },
            EnvelopeCommand::SetRelease(value) => Envelope { release: value, ..self },
            EnvelopeCommand::On => Envelope { stage: EnvelopStage::Attack(0), active: true, ..self },
            EnvelopeCommand::Off => Envelope { active: false, ..self },
            EnvelopeCommand::Mute => Envelope { stage: EnvelopStage::Idle, active: false, ..self },
        }
    }

    /// Applies a command (see `spec_send_command`).
    pub fn send_command(&mut self, command: EnvelopeCommand)
        ensures
            *final(self) == old(self).spec_send_command(command),
    {
        match command {
            EnvelopeCommand::SetAttack(value) => self.attack = value,
            EnvelopeCommand::SetDecay(value) => self.decay = value,
            EnvelopeCommand::SetSustain(value) => self.sustain = value,
            EnvelopeCommand::SetRelease(value) => self.release = value,
            EnvelopeCommand::On => {
                self.stage = EnvelopStage::Attack(0);
                self.active = true;
            },
            EnvelopeCommand::Off => {
                self.active = false;
            },
            EnvelopeCommand::Mute => {
                self.stage = EnvelopStage::Idle;
                self.active = false;
            },
        }
    }
}

/// A muted envelope is silent: its next step gives no level and it stays idle.
pub proof fn law_mute_silences(e: Envelope)
    ensures
        e.spec_send_command(EnvelopeCommand::Mute).spec_process() == (EnvelopStage::Idle, None::<i16>),
{
}

/// A note turned on starts from silence: the first level is 0, or full level at once when the
/// attack has no length.
pub proof fn law_on_starts_attack(e: Envelope)
    ensures
        ({
            let on = e.spec_send_command(EnvelopeCommand::On);
            &&& on.active
            &&& on.spec_process().1 == Some(if e.attack == 0 { 0x7FFFi16 } else { 0i16 })
        }),
{
    lemma_as_i32(0);
    lemma_as_i32(e.attack);
}

/// A held note stays at the sustain level; once let go it moves to the release.
pub proof fn law_sustain_until_off(e: Envelope)
    requires
        e.stage == EnvelopStage::Sustain,
    ensures
        e.active ==> e.spec_process() == (EnvelopStage::Sustain, Some(e.sustain)),
        e.spec_send_command(EnvelopeCommand::Off).spec_process() == (EnvelopStage::Release(0), Some(e.sustain)),
{
}

/// A finished release ends in silence and then stays idle.
pub proof fn law_release_ends_idle(e: Envelope, t: u32)
    requires
        e.stage == EnvelopStage::Release(t),
        t >= e.release,
    ensures
        e.spec_process() == (EnvelopStage::Idle, Some(0i16)),
        (Envelope { stage: e.spec_process().0, ..e }).spec_process() == (EnvelopStage::Idle, None::<i16>),
{
}


/// Parameters the sound unit's envelopes are meant to run with: stages of at most 65536
/// samples and a sustain level that is not negative.
pub open spec fn spec_tame(e: Envelope) -> bool {
    &&& e.attack <= 65536
    &&& e.decay <= 65536
    &&& e.release <= 65536
    &&& e.sustain >= 0
}

/// A command that keeps such parameters.
pub open spec fn spec_tame_command(c: EnvelopeCommand) -> bool {
    match c {
        EnvelopeCommand::SetAttack(v) => v <= 65536,
        EnvelopeCommand::SetDecay(v) => v <= 65536,
        EnvelopeCommand::SetRelease(v) => v <= 65536,
        EnvelopeCommand::SetSustain(v) => v >= 0,
        _ => true,
    }
}

/// `a * b / d` for `0 <= b <= d` lies in `0..=a`.
proof fn lemma_scaled_down(a: int, b: int, d: int)
    requires
        0 <= a,
        0 <= b <= d,
        0 < d,
    ensures
        0 <= (a * b) / d <= a,
{
    assert(0 <= a * b <= a * d) by (nonlinear_arith) requires 0 <= a, 0 <= b <= d;
    vstd::arithmetic::div_mod::lemma_div_pos_is_pos(a * b, d);
    vstd::arithmetic::div_mod::lemma_div_is_ordered(a * b, a * d, d);
    vstd::arithmetic::div_mod::lemma_div_by_multiple(a, d);
}

/// An envelope with such parameters (see `spec_tame`), in any stage, always steps within
/// its machine integers, gives a level between 0 and 0x7FFF, and keeps its parameters.
/// The default envelope has them, and commands that keep them (`spec_tame_command`) leave
/// them so; see `law_tame_commands`.
pub proof fn law_tame_envelope_steps_in_range(e: Envelope)
    requires
        spec_tame(e),
    ensures
        e.spec_step_in_range(),
        match e.spec_process().1 {
            Some(x) => 0 <= x <= 0x7FFF,
            None => true,
        },
        spec_tame(Envelope { stage: e.spec_process().0, ..e }),
{
    match e.stage {
        EnvelopStage::Attack(t) => {
            if t < e.attack {
                lemma_as_i32(t);
                lemma_as_i32(e.attack);
                assert(0 <= 0x7FFF * (t as int) <= 0x7FFF * 65536) by (nonlinear_arith) requires t < 65536;
                lemma_scaled_down(0x7FFF, t as int, e.attack as int);
            }
        },
        EnvelopStage::Decay(t) => {
            if t < e.decay {
                let n = (e.decay - t) as u32;
                lemma_as_i32(n);
                lemma_as_i32(e.decay);
                let a = 0x7FFF - e.sustain;
                assert(0 <= a * (n as int) <= 0x7FFF * 65536) by (nonlinear_arith) requires 0 <= a <= 0x7FFF, n <= 65536;
                lemma_scaled_down(a, n as int, e.decay as int);
            }
        },
        EnvelopStage::Release(t) => {
            if t < e.release {
                let n = (e.release - t) as u32;
                lemma_as_i32(n);
                lemma_as_i32(e.release);
                let a = e.sustain as int;
                assert(0 <= a * (n as int) <= 0x7FFF * 65536) by (nonlinear_arith) requires 0 <= a <= 0x7FFF, n <= 65536;
                lemma_scaled_down(a, n as int, e.release as int);
            }
        },
        _ => {},
    }
}

/// Commands that keep the parameters tame leave a tame envelope tame, and the default
/// envelope is tame.
pub proof fn law_tame_commands(e: Envelope, c: EnvelopeCommand)
    requires
        spec_tame(e),
        spec_tame_command(c),
    ensures
        spec_tame(e.spec_send_command(c)),
        spec_tame(Envelope { attack: 0, decay: 0, sustain: 0, release: 0, stage: EnvelopStage::Idle, active: false }),
{
}

} // verus!
