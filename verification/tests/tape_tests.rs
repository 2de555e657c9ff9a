use tapedeck::tape::{SpeedControl, TapeSimulation};

#[test]
fn disabled_tape_passes_audio_through() {
    let mut t = TapeSimulation::new();
    assert_eq!(t.process_stereo(1234, -5678), (1234, -5678));
}

#[test]
fn enabled_tape_colors_the_signal() {
    let mut t = TapeSimulation::new();
    t.enabled = true;
    let (l, r) = t.process_stereo(30_000, 30_000);
    assert_ne!((l, r), (30_000, 30_000));
    // hiss is decorrelated between channels
    let mut quiet = TapeSimulation::new();
    quiet.enabled = true;
    let (ql, qr) = quiet.process_stereo(0, 0);
    assert_ne!(ql, qr);
}

#[test]
fn pitch_offset_is_bounded_by_the_depths() {
    let mut t = TapeSimulation::new();
    for _ in 0..2000 {
        let off = t.get_pitch_offset();
        // |wow| <= 0.002 * 44100 and |flutter| <= 0.0003 * 44100 samples
        assert!(off.abs() <= (131 + 20) * 44_100);
    }
}

#[test]
fn speed_control_clamps_and_interpolates() {
    let mut s = SpeedControl::new();
    s.set_speed(1_000_000);
    assert_eq!(s.speed, 262_144);
    s.set_speed(0);
    assert_eq!(s.speed, 16_384);
    let buf: Vec<i32> = vec![0, 100, 200, 300, 400, 500];
    // at an exact sample position the cubic reproduces the sample
    assert_eq!(s.read_interpolated(&buf, 2 * 65_536), 200);
    // halfway between two samples lies between them
    let mid = s.read_interpolated(&buf, 2 * 65_536 + 32_768);
    assert!(mid > 200 && mid < 300);
    // short buffers read as silence
    assert_eq!(s.read_interpolated(&vec![1, 2, 3], 0), 0);
    assert_eq!(s.advance(7), 7 * 65_536);
}
