use tapedeck::voice::VoiceAllocator;

#[test]
fn note_on_reuses_the_slot_already_holding_the_note() {
    let mut a = VoiceAllocator::new(8);
    let first = a.note_on(60);
    let second = a.note_on(60);
    assert_eq!(first, second);
    assert_eq!(a.active_voices().len(), 1);
}

#[test]
fn note_on_fills_free_slots_in_order_then_steals_oldest() {
    let mut a = VoiceAllocator::new(3);
    assert_eq!(a.note_on(1), 0);
    assert_eq!(a.note_on(2), 1);
    assert_eq!(a.note_on(3), 2);
    // pool is full: the oldest (note 1, slot 0) is stolen
    assert_eq!(a.note_on(4), 0);
    let notes: Vec<u8> = a.active_voices().iter().map(|p| p.1).collect();
    assert_eq!(notes, vec![4, 2, 3]);
}

#[test]
fn note_off_releases_only_the_matching_voice() {
    let mut a = VoiceAllocator::new(4);
    a.note_on(10);
    a.note_on(11);
    assert_eq!(a.note_off(10), Some(0));
    assert_eq!(a.note_off(10), None);
    assert_eq!(a.active_voices().len(), 1);
}
