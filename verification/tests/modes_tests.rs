use tapedeck::modes::{key_hints, AppMode};

#[test]
fn mode_cycle_covers_all_modes() {
    let mut m = AppMode::Tape;
    let mut labels = Vec::new();
    for _ in 0..4 {
        labels.push(m.label());
        m = m.next();
    }
    assert_eq!(labels, vec!["TAPE", "SYNTH", "DRUM", "MIXER"]);
    assert_eq!(m, AppMode::Tape);
}

#[test]
fn key_hints_lead_with_mode_bindings() {
    let hints = key_hints(AppMode::Tape);
    assert_eq!(hints.len(), 13);
    assert_eq!(hints[0], ("R", "Record"));
    assert_eq!(hints[hints.len() - 1], ("Esc", "Quit"));
    assert_eq!(key_hints(AppMode::Synth).len(), 11);
    assert_eq!(key_hints(AppMode::Drum).len(), 11);
    assert_eq!(key_hints(AppMode::Mixer).len(), 12);
}
