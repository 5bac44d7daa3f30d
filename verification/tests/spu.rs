use rvfm::spu::envelope::{div_i32, EnvelopStage, Envelope, EnvelopeCommand};
use rvfm::spu::engine::Engine;
use rvfm::spu::filter::FilterMode;
use rvfm::spu::lfo;
use rvfm::spu::oscillator::Waveform;
use rvfm::spu::pitch::PitchMode;

fn levels(e: &mut Envelope, n: usize) -> Vec<Option<i16>> {
    (0..n).map(|_| e.process()).collect()
}

#[test]
fn envelope_runs_through_its_stages() {
    let mut e = Envelope::default();
    assert_eq!(e.process(), None);
    e.send_command(EnvelopeCommand::SetAttack(4));
    e.send_command(EnvelopeCommand::SetDecay(2));
    e.send_command(EnvelopeCommand::SetSustain(0x4000));
    e.send_command(EnvelopeCommand::SetRelease(2));
    e.send_command(EnvelopeCommand::On);
    assert!(e.active);
    assert_eq!(
        levels(&mut e, 9),
        vec![Some(0), Some(8191), Some(16383), Some(24575), Some(0x7FFF), Some(0x7FFF), Some(24575), Some(0x4000), Some(0x4000)]
    );
    assert_eq!(e.stage, EnvelopStage::Sustain);
    e.send_command(EnvelopeCommand::Off);
    assert_eq!(levels(&mut e, 5), vec![Some(0x4000), Some(0x4000), Some(8192), Some(0), None]);
    assert_eq!(e.stage, EnvelopStage::Idle);
}

#[test]
fn envelope_without_attack_starts_at_full_level() {
    let mut e = Envelope::default();
    e.send_command(EnvelopeCommand::On);
    assert_eq!(e.process(), Some(0x7FFF));
    assert_eq!(e.stage, EnvelopStage::Decay(0));
}

#[test]
fn mute_silences_at_once() {
    let mut e = Envelope::default();
    e.send_command(EnvelopeCommand::SetAttack(100));
    e.send_command(EnvelopeCommand::On);
    assert_eq!(e.process(), Some(0));
    e.send_command(EnvelopeCommand::Mute);
    assert!(!e.active);
    assert_eq!(e.process(), None);
    assert_eq!(e.stage, EnvelopStage::Idle);
}

#[test]
fn released_before_sustain() {
    // Let go during the decay: the envelope goes to the release, not the sustain.
    let mut e = Envelope { attack: 0, decay: 1, sustain: 100, release: 1, stage: EnvelopStage::Decay(1), active: false };
    assert_eq!(e.process(), Some(100));
    assert_eq!(e.stage, EnvelopStage::Release(0));
    assert_eq!(e.process(), Some(100));
    assert_eq!(e.process(), Some(0));
    assert_eq!(e.process(), None);
}

#[test]
fn division_rounds_toward_zero() {
    assert_eq!(div_i32(-7, 2), -3);
    assert_eq!(div_i32(7, -2), -3);
    assert_eq!(div_i32(i32::MIN, 1), i32::MIN);
    assert_eq!(div_i32(32767 * 3, 4), 24575);
}

#[test]
fn waveform_numbers() {
    for (n, w) in [(0, Waveform::Square), (1, Waveform::Triangle), (2, Waveform::Sin), (3, Waveform::SuperSaw), (4, Waveform::Noise)] {
        assert_eq!(Waveform::from_u32(n), w);
        assert_eq!(w.to_u32(), n);
    }
    assert_eq!(Waveform::from_u32(99), Waveform::Square);
    assert_eq!(lfo::Waveform::from_u8(3), Some(lfo::Waveform::Sawtooth));
    assert_eq!(lfo::Waveform::from_u8(5), None);
}

#[test]
fn mode_numbers() {
    assert_eq!(PitchMode::from_u32(1), PitchMode::PortamentoQuadratic);
    assert_eq!(PitchMode::from_u32(2), PitchMode::Constant);
    assert_eq!(FilterMode::from_u32(1), FilterMode::Muted);
    assert_eq!(FilterMode::from_u32(4), FilterMode::Muted);
}

#[test]
fn engine_routes_envelope_commands() {
    let mut engine = Engine::default();
    engine.envelope_command(3, EnvelopeCommand::SetAttack(10));
    assert_eq!(engine.voice_envelopes[3].attack, 10);
    assert_eq!(engine.filter_envelopes[3].attack, 0);
    engine.envelope_command(20, EnvelopeCommand::SetDecay(7));
    assert_eq!(engine.filter_envelopes[4].decay, 7);
    assert_eq!(engine.voice_envelopes[4].decay, 0);
    engine.envelope_command(33, EnvelopeCommand::On);
    assert!(engine.voice_envelopes[1].active && engine.filter_envelopes[1].active);
    engine.envelope_command(0xFE, EnvelopeCommand::SetSustain(5));
    assert!(engine.voice_envelopes.iter().all(|e| e.sustain == 5));
    assert!(engine.filter_envelopes.iter().all(|e| e.sustain == 0));
    engine.envelope_command(0xFD, EnvelopeCommand::SetRelease(9));
    assert!(engine.filter_envelopes.iter().all(|e| e.release == 9));
    engine.envelope_command(0xFF, EnvelopeCommand::Mute);
    assert!(engine.voice_envelopes.iter().chain(engine.filter_envelopes.iter()).all(|e| !e.active));
    let before = (engine.voice_envelopes.clone(), engine.filter_envelopes.clone());
    engine.envelope_command(48, EnvelopeCommand::On);
    assert_eq!((engine.voice_envelopes.clone(), engine.filter_envelopes.clone()), before);
}

#[test]
fn engine_mix_coefficients() {
    let mut engine = Engine::default();
    engine.set_mix(5, -3);
    assert_eq!(engine.mix_coefficients[2], (0, -3));
    engine.set_mix(4, 8);
    assert_eq!(engine.mix_coefficients[2], (8, -3));
    engine.set_mix(96, 1);
    assert!(engine.mix_coefficients.iter().all(|c| *c == (0, 0) || *c == (8, -3)));
    engine.set_mix(0x1FF, 4);
    assert!(engine.mix_coefficients.iter().all(|c| *c == (4, 4)));
    assert_eq!(engine.mix_coefficients.len(), 48);
}

#[test]
fn envelope_with_longest_stages_stays_in_range() {
    let mut e = Envelope::default();
    e.send_command(EnvelopeCommand::SetAttack(65536));
    e.send_command(EnvelopeCommand::SetDecay(65536));
    e.send_command(EnvelopeCommand::SetSustain(0x7FFF));
    e.send_command(EnvelopeCommand::SetRelease(65536));
    e.send_command(EnvelopeCommand::On);
    for _ in 0..140_000 {
        let x = e.process().unwrap();
        assert!(x >= 0);
    }
    e.send_command(EnvelopeCommand::Off);
    let mut last = Some(0x7FFF);
    while let Some(x) = e.process() {
        assert!(x >= 0 && Some(x) <= last);
        last = Some(x);
    }
    assert_eq!(last, Some(0));
}

#[test]
fn envelope_step_range_check() {
    let at = |stage| Envelope { attack: 0x2_0000, decay: 10, sustain: 0x100, release: 10, stage, active: true };
    assert!(at(EnvelopStage::Attack(0x1_0000)).step_in_range());
    assert!(!at(EnvelopStage::Attack(0x1_0003)).step_in_range());
    assert!(at(EnvelopStage::Attack(0x3_0000)).step_in_range());
    assert!(at(EnvelopStage::Decay(3)).step_in_range());
    assert!(at(EnvelopStage::Release(3)).step_in_range());
    assert!(at(EnvelopStage::Idle).step_in_range());
    // A decay longer than the signed range makes a product that does not fit.
    let long = Envelope { attack: 0, decay: 0x8000_0000, sustain: -0x8000, release: 0, stage: EnvelopStage::Decay(0), active: true };
    assert!(!long.step_in_range());
}
