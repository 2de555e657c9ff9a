use tapedeck::synth::{create_engine, cycle_engine, EngineKind, SynthEngine, ENGINE_COUNT};

#[test]
fn engine_cycling_wraps_in_both_directions() {
    let mut idx = 0usize;
    for _ in 0..ENGINE_COUNT {
        idx = cycle_engine(idx, true);
        let e = create_engine(idx);
        assert!(idx < ENGINE_COUNT);
        assert!(!e.name().is_empty());
    }
    assert_eq!(idx, 0);
    assert_eq!(cycle_engine(0, false), ENGINE_COUNT - 1);
    assert_eq!(cycle_engine(ENGINE_COUNT - 1, true), 0);
}

#[test]
fn out_of_range_engine_index_falls_back_to_sine() {
    let e = create_engine(ENGINE_COUNT + 10);
    assert_eq!(e.name(), "SINE");
}

#[test]
fn engine_names_follow_their_kind() {
    assert_eq!(create_engine(0).name(), "SINE");
    assert_eq!(create_engine(1).name(), "SAW");
    assert_eq!(create_engine(2).name(), "FM");
    assert_eq!(create_engine(3).name(), "STRING");
    assert_eq!(create_engine(4).name(), "NOISE");
}

#[test]
fn idle_engine_is_silent_and_note_makes_sound() {
    let mut e = SynthEngine::new(EngineKind::Sine);
    for _ in 0..32 {
        assert_eq!(e.tick(), 0);
    }
    e.note_on(69, 0);
    let mut heard = false;
    for _ in 0..2000 {
        if e.tick() != 0 {
            heard = true;
        }
    }
    assert!(heard);
}

#[test]
fn note_off_eventually_silences_the_voice() {
    let mut e = SynthEngine::new(EngineKind::Sine);
    e.note_on(60, 0);
    for _ in 0..5000 {
        e.tick();
    }
    e.note_off(60);
    // decay 0.3s at 44100 Hz: run well past it
    for _ in 0..40_000 {
        e.tick();
    }
    for _ in 0..64 {
        assert_eq!(e.tick(), 0);
    }
}

#[test]
fn set_param_clamps_into_declared_range() {
    let mut e = SynthEngine::new(EngineKind::Saw);
    e.set_param(0, 99_999_999);
    e.set_param(1, -5);
    assert_eq!(e.params[0], 65_536);
    assert_eq!(e.params[1], 0);
    assert_eq!(e.param_count(), 4);
    assert_eq!(e.param_name(2), "ATTACK");
}
