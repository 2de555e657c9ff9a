use tapedeck::buffer::SharedBuffers;
use tapedeck::engine::EngineCore;
use tapedeck::messages::{AudioCmd, RecordSource};
use tapedeck::transport::TransportState;

#[test]
fn recording_mic_writes_the_armed_track() {
    let mut engine = EngineCore::new();
    let mut bufs = SharedBuffers::new();
    engine.apply_command(AudioCmd::SetRecordSource(RecordSource::Mic), Some(&bufs));
    engine.apply_command(AudioCmd::Record(0), Some(&bufs));
    // four beats of count-in at 120 bpm
    for _ in 0..(22_050 * 4) {
        let f = engine.process_frame(&mut bufs, None);
        assert!(!f.mic_consumed);
    }
    assert_eq!(engine.transport.recording_track, None);
    // one hundred frames of a constant mic signal at half scale
    for _ in 0..100 {
        let f = engine.process_frame(&mut bufs, Some(32_768));
        assert!(f.mic_consumed);
    }
    engine.apply_command(AudioCmd::StopRecord, Some(&bufs));
    assert_eq!(engine.transport.state, TransportState::Playing);
    assert_eq!(bufs.tracks[0].sample_count(), 100);
    for i in 0..100 {
        assert_eq!(bufs.tracks[0].read(i), 32_768);
    }
    assert_eq!(bufs.tracks[0].read(100), 0);
}

#[test]
fn select_engine_cycles_without_out_of_bounds() {
    let mut engine = EngineCore::new();
    let mut idx = engine.engine_index;
    for _ in 0..12 {
        idx = tapedeck::synth::cycle_engine(idx, true);
        engine.apply_command(AudioCmd::SelectEngine(idx), None);
        assert!(engine.engine_index < tapedeck::synth::ENGINE_COUNT);
    }
    for _ in 0..12 {
        idx = tapedeck::synth::cycle_engine(idx, false);
        engine.apply_command(AudioCmd::SelectEngine(idx), None);
        assert!(engine.engine_index < tapedeck::synth::ENGINE_COUNT);
    }
    engine.apply_command(AudioCmd::SelectEngine(3), None);
    assert_eq!(engine.synth.name(), "STRING");
}

#[test]
fn stop_command_rewinds_and_reports_step_zero() {
    let mut engine = EngineCore::new();
    engine.apply_command(AudioCmd::Play, None);
    let mut bufs = SharedBuffers::new();
    for _ in 0..50 {
        engine.process_frame(&mut bufs, None);
    }
    assert_eq!(engine.transport.position, 50);
    let msg = engine.apply_command(AudioCmd::Stop, None);
    assert_eq!(msg, Some(0));
    assert_eq!(engine.transport.position, 0);
    assert_eq!(engine.transport.state, TransportState::Stopped);
}

#[test]
fn telemetry_report_arrives_once_per_interval() {
    let mut engine = EngineCore::new();
    let mut reports = 0;
    for i in 0..(1470 * 2) {
        let f = engine.process_frame_unlocked(None);
        if f.report.is_some() {
            reports += 1;
            assert!(i == 1469 || i == 2939);
        }
    }
    assert_eq!(reports, 2);
}

#[test]
fn contended_lock_degrades_without_stalling() {
    let mut engine = EngineCore::new();
    engine.apply_command(AudioCmd::Play, None);
    for _ in 0..64 {
        let f = engine.process_frame_unlocked(None);
        assert!(f.left >= -65_536 && f.left <= 65_536);
    }
    assert_eq!(engine.transport.position, 64);
}

#[test]
fn set_level_and_pan_commands_clamp() {
    let mut engine = EngineCore::new();
    engine.apply_command(AudioCmd::SetLevel(1, 999_999), None);
    engine.apply_command(AudioCmd::SetPan(1, -999_999), None);
    assert_eq!(engine.mixer.levels[1], 65_536);
    assert_eq!(engine.mixer.pans[1], -65_536);
    // out-of-range tracks are ignored, never panic
    engine.apply_command(AudioCmd::SetLevel(9, 1), None);
    engine.apply_command(AudioCmd::SetMute(9, true), None);
}

#[test]
fn toggle_step_arms_the_sequencer_pattern() {
    let mut engine = EngineCore::new();
    engine.apply_command(AudioCmd::ToggleStep(2, 5), None);
    assert!(engine.patterns.patterns[2].is_active(5));
    engine.apply_command(AudioCmd::ToggleStep(2, 5), None);
    assert!(!engine.patterns.patterns[2].is_active(5));
    engine.apply_command(AudioCmd::ToggleStep(99, 5), None);
}

#[test]
fn record_source_cycles_through_all_sources() {
    let mut s = RecordSource::Mic;
    let labels: Vec<&str> = (0..6)
        .map(|_| {
            let l = s.label();
            s = s.next();
            l
        })
        .collect();
    assert_eq!(labels, vec!["MIC", "SYNTH", "DRUM", "INTERNAL", "ALL", "MIC"]);
}

#[test]
fn recording_internal_source_captures_the_synth() {
    let mut engine = EngineCore::new();
    let mut bufs = SharedBuffers::new();
    engine.apply_command(AudioCmd::SetRecordSource(RecordSource::Internal), Some(&bufs));
    engine.apply_command(AudioCmd::NoteOn(69, 65_536), Some(&bufs));
    engine.apply_command(AudioCmd::Record(1), Some(&bufs));
    for _ in 0..(22_050 * 4 + 1) {
        engine.process_frame(&mut bufs, None);
    }
    assert_eq!(engine.transport.recording_track, Some(1));
    for _ in 0..49 {
        engine.process_frame(&mut bufs, None);
    }
    engine.apply_command(AudioCmd::StopRecord, Some(&bufs));
    assert_eq!(bufs.tracks[1].sample_count(), 50);
    let mut heard = false;
    for i in 0..50 {
        if bufs.tracks[1].read(i) != 0 {
            heard = true;
        }
    }
    assert!(heard);
    // the other tracks stay untouched
    assert_eq!(bufs.tracks[0].sample_count(), 0);
}

#[test]
fn count_in_click_is_audible_before_recording_starts() {
    let mut engine = EngineCore::new();
    let mut bufs = SharedBuffers::new();
    engine.apply_command(AudioCmd::Record(0), Some(&bufs));
    let mut heard = false;
    for _ in 0..100 {
        let f = engine.process_frame(&mut bufs, None);
        if f.left != 0 {
            heard = true;
        }
    }
    assert!(heard);
    assert_eq!(engine.transport.recording_track, None);
}

#[test]
fn seek_command_clamps_like_the_transport() {
    let mut engine = EngineCore::new();
    engine.apply_command(AudioCmd::Seek(usize::MAX), None);
    assert_eq!(engine.transport.position, tapedeck::constants::TRACK_SAMPLES - 1);
    engine.apply_command(AudioCmd::Seek(7), None);
    assert_eq!(engine.transport.position, 7);
}
