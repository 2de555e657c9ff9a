use tapedeck::constants::{FX_ONE, INSTRUMENT_COUNT};
use tapedeck::drums::{DrumKit, DRUM_GATE};

#[test]
fn triggered_voice_decays_monotonically_and_gates_off() {
    let mut kit = DrumKit::new();
    kit.trigger(0);
    assert!(kit.voices[0].active);
    assert_eq!(kit.voices[0].envelope, FX_ONE);
    let mut prev_env = kit.voices[0].envelope;
    let mut saw_nonzero = false;
    let mut steps = 0u64;
    while kit.voices[0].active {
        let out = kit.process();
        if out != 0 {
            saw_nonzero = true;
        }
        let env = kit.voices[0].envelope;
        assert!(env <= prev_env);
        // the emitted magnitude never exceeds the decayed envelope bound
        assert!(out.abs() <= 3 * FX_ONE);
        prev_env = env;
        steps += 1;
        assert!(steps < 2_000_000);
    }
    assert!(saw_nonzero);
    assert!(kit.voices[0].envelope < DRUM_GATE);
}

#[test]
fn untriggered_kit_is_silent() {
    let mut kit = DrumKit::new();
    for _ in 0..64 {
        assert_eq!(kit.process(), 0);
    }
}

#[test]
fn retrigger_restarts_the_envelope() {
    let mut kit = DrumKit::new();
    kit.trigger(3);
    for _ in 0..500 {
        kit.process();
    }
    let decayed = kit.voices[3].envelope;
    assert!(decayed < FX_ONE);
    kit.trigger(3);
    assert_eq!(kit.voices[3].envelope, FX_ONE);
    assert_eq!(kit.voices[3].phase, 0);
}

#[test]
fn out_of_range_instrument_is_ignored() {
    let mut kit = DrumKit::new();
    kit.trigger(INSTRUMENT_COUNT + 3);
    for v in kit.voices.iter() {
        assert!(!v.active);
    }
}
