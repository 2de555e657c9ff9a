use tapedeck::constants::TRACK_SAMPLES;
use tapedeck::transport::{Transport, TransportState};

#[test]
fn seek_clamps_to_track_bounds() {
    let mut transport = Transport::new();
    transport.seek(TRACK_SAMPLES + 10_000);
    assert_eq!(transport.position, TRACK_SAMPLES - 1);
}

#[test]
fn seek_keeps_valid_positions() {
    let mut transport = Transport::new();
    transport.seek(12_345);
    assert_eq!(transport.position, 12_345);
}

#[test]
fn advance_wraps_at_loop_end_when_enabled() {
    let mut transport = Transport::new();
    transport.set_loop_enabled(true);
    transport.set_loop_end(Some(4));
    transport.play();
    for _ in 0..4 {
        transport.advance();
    }
    assert_eq!(transport.position, 0);
}

#[test]
fn advance_does_not_wrap_when_loop_disabled() {
    let mut transport = Transport::new();
    transport.set_loop_enabled(false);
    transport.set_loop_end(Some(4));
    transport.play();
    for _ in 0..4 {
        transport.advance();
    }
    assert_eq!(transport.position, 4);
}

#[test]
fn loop_advances_stay_inside_region() {
    let mut transport = Transport::new();
    transport.set_loop_enabled(true);
    transport.set_loop_end(Some(4));
    transport.play();
    for _ in 0..13 {
        transport.advance();
        assert!(transport.position < 4);
    }
    assert_eq!(transport.position, 1);
}

#[test]
fn stop_rewinds_and_disarms() {
    let mut transport = Transport::new();
    transport.record(2);
    transport.seek(100);
    transport.stop();
    assert_eq!(transport.position, 0);
    assert_eq!(transport.recording_track, None);
    assert_eq!(transport.state, TransportState::Stopped);
}

#[test]
fn play_keeps_an_active_recording() {
    let mut transport = Transport::new();
    transport.record(1);
    transport.play();
    assert_eq!(transport.state, TransportState::Recording);
    assert_eq!(transport.recording_track, Some(1));
    transport.stop_record();
    assert_eq!(transport.state, TransportState::Playing);
    assert_eq!(transport.recording_track, None);
}

#[test]
fn pause_toggles_playing_and_paused() {
    let mut transport = Transport::new();
    transport.play();
    transport.pause();
    assert_eq!(transport.state, TransportState::Paused);
    transport.pause();
    assert_eq!(transport.state, TransportState::Playing);
    assert!(transport.is_playing());
}
