use tapedeck::clock::SequencerClock;

#[test]
fn tick_is_pure_and_reports_new_step_once() {
    let mut c = SequencerClock::new(120);
    c.reset();
    let (step1, new1) = c.tick(30_000);
    let (step2, new2) = c.tick(30_000);
    assert_eq!(step1, step2);
    assert!(new1);
    assert!(!new2);
}

#[test]
fn step_is_derived_from_position_alone() {
    // At 120 bpm one step is (44100 * 60 / 120) / 4 = 5512 samples.
    let mut c = SequencerClock::new(120);
    assert_eq!(c.tick(0).0, 0);
    assert_eq!(c.tick(5511).0, 0);
    assert_eq!(c.tick(5512).0, 1);
    assert_eq!(c.tick(5512 * 16).0, 0);
    assert_eq!(c.tick(5512 * 17).0, 1);
}

#[test]
fn seeking_backwards_reproduces_the_same_step() {
    let mut a = SequencerClock::new(97);
    let mut b = SequencerClock::new(97);
    let (sa, _) = a.tick(123_456);
    for p in 0..40 {
        b.tick(p * 991);
    }
    let (sb, _) = b.tick(123_456);
    assert_eq!(sa, sb);
}

#[test]
fn bpm_is_clamped_into_range() {
    let mut c = SequencerClock::new(1000);
    assert_eq!(c.bpm(), 300);
    c.set_bpm(10);
    assert_eq!(c.bpm(), 40);
    c.set_bpm(128);
    assert_eq!(c.bpm(), 128);
}
