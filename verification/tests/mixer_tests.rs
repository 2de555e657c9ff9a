use tapedeck::constants::FX_ONE;
use tapedeck::mixer::MixerState;

#[test]
fn pan_law_hard_left_sends_level_left_only() {
    let mut m = MixerState::new();
    m.set_level(0, 40000);
    m.set_pan(0, -FX_ONE);
    assert_eq!(m.track_gain(0), (40000, 0));
}

#[test]
fn pan_law_hard_right_sends_level_right_only() {
    let mut m = MixerState::new();
    m.set_level(0, 40000);
    m.set_pan(0, FX_ONE);
    assert_eq!(m.track_gain(0), (0, 40000));
}

#[test]
fn pan_law_center_sends_level_both_sides() {
    let mut m = MixerState::new();
    m.set_level(2, 12345);
    m.set_pan(2, 0);
    assert_eq!(m.track_gain(2), (12345, 12345));
}

#[test]
fn pan_law_half_right_attenuates_left() {
    let mut m = MixerState::new();
    m.set_level(1, FX_ONE);
    m.set_pan(1, FX_ONE / 2);
    // left = 1.0 * (1 - 0.5), right = 1.0 * (1 + 0)
    assert_eq!(m.track_gain(1), (FX_ONE / 2, FX_ONE));
}

#[test]
fn mute_always_silences_track() {
    let mut m = MixerState::new();
    m.set_level(0, FX_ONE);
    m.set_pan(0, -FX_ONE / 3);
    m.set_mute(0, true);
    assert_eq!(m.track_gain(0), (0, 0));
    m.set_solo(0, true);
    assert_eq!(m.track_gain(0), (0, 0));
}

#[test]
fn solo_silences_every_unsoloed_track() {
    let mut m = MixerState::new();
    m.set_solo(3, true);
    assert_eq!(m.track_gain(0), (0, 0));
    assert_eq!(m.track_gain(1), (0, 0));
    assert_eq!(m.track_gain(2), (0, 0));
    let (gl, gr) = m.track_gain(3);
    assert!(gl > 0 && gr > 0);
}

#[test]
fn set_level_clamps_out_of_range_values() {
    let mut m = MixerState::new();
    m.set_level(0, 10 * FX_ONE);
    m.set_pan(0, 0);
    assert_eq!(m.track_gain(0), (FX_ONE, FX_ONE));
    m.set_level(0, -5);
    assert_eq!(m.track_gain(0), (0, 0));
}

#[test]
fn mix_sums_weighted_tracks() {
    let mut m = MixerState::new();
    for t in 0..4 {
        m.set_level(t, FX_ONE);
        m.set_pan(t, 0);
    }
    let (l, r) = m.mix(&[1000, 2000, 3000, 4000]);
    assert_eq!(l, 10_000);
    assert_eq!(r, 10_000);
}
