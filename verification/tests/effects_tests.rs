use tapedeck::constants::FX_ONE;
use tapedeck::effects::{Effect, EffectChain, EffectKind, FilterMode};

#[test]
fn empty_chain_passes_samples_through() {
    let mut chain = EffectChain::new();
    assert_eq!(chain.process_sample(4321), 4321);
    assert_eq!(chain.len(), 0);
}

#[test]
fn bypassed_effect_is_skipped() {
    let mut chain = EffectChain::new();
    chain.add(Effect::new(EffectKind::Distortion));
    chain.toggle_bypass(0);
    assert_eq!(chain.process_sample(5000), 5000);
    chain.toggle_bypass(0);
    let wet = chain.process_sample(5000);
    assert_ne!(wet, 5000);
}

#[test]
fn delay_echoes_after_its_tap_length() {
    let mut d = Effect::new(EffectKind::Delay);
    d.set_param(0, 655); // 0.01 s -> 441 samples
    d.set_param(2, FX_ONE); // fully wet
    assert_eq!(d.process_sample(9999), 0);
    for _ in 0..439 {
        assert_eq!(d.process_sample(0), 0);
    }
    assert_eq!(d.process_sample(0), 9999);
}

#[test]
fn filter_mode_selects_by_threshold() {
    let mut f = Effect::new(EffectKind::Filter);
    f.set_param(2, 0);
    assert_eq!(f.mode, FilterMode::LowPass);
    f.set_param(2, 30_000);
    assert_eq!(f.mode, FilterMode::HighPass);
    f.set_param(2, 60_000);
    assert_eq!(f.mode, FilterMode::BandPass);
}

#[test]
fn effect_params_clamp_and_names_hold() {
    let mut e = Effect::new(EffectKind::Delay);
    e.set_param(1, 99_999_999);
    assert_eq!(e.params[1], 58_982);
    assert_eq!(e.name(), "DELAY");
    assert_eq!(e.param_count(), 3);
    assert_eq!(Effect::new(EffectKind::Reverb).name(), "REVERB");
    assert_eq!(Effect::new(EffectKind::Chorus).name(), "CHORUS");
}

#[test]
fn distortion_keeps_silence_silent() {
    let mut e = Effect::new(EffectKind::Distortion);
    for _ in 0..16 {
        assert_eq!(e.process_sample(0), 0);
    }
}
