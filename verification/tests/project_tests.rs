use tapedeck::project::{decode_track, encode_track, ProjectMeta};

#[test]
fn saved_track_loads_back_unchanged() {
    let samples: Vec<i32> = vec![0, 1, -1, 100, -100, 12_345, -23_456, 65_535, -65_535, 7];
    let bytes = encode_track(&samples).expect("in-memory encode cannot overflow");
    let loaded = decode_track(&bytes).expect("own image must decode");
    assert_eq!(loaded, samples);
}

#[test]
fn longer_recording_round_trips_within_tolerance() {
    let samples: Vec<i32> = (0..4096).map(|i| ((i * 37) % 130_000) as i32 - 65_000).collect();
    let bytes = encode_track(&samples).unwrap();
    let loaded = decode_track(&bytes).unwrap();
    assert_eq!(loaded.len(), samples.len());
    for (a, b) in loaded.iter().zip(samples.iter()) {
        assert!((a - b).abs() <= 1);
    }
}

#[test]
fn malformed_bytes_are_rejected() {
    let junk: Vec<u8> = vec![1, 2, 3, 4, 5, 6, 7, 8];
    assert!(decode_track(&junk).is_none());
    assert!(decode_track(&Vec::new()).is_none());
}

#[test]
fn foreign_stereo_wav_downmixes_to_mono() {
    // a 16-bit stereo WAV written directly with hound
    let spec = hound::WavSpec {
        channels: 2,
        sample_rate: 44_100,
        bits_per_sample: 16,
        sample_format: hound::SampleFormat::Int,
    };
    let mut bytes: Vec<u8> = Vec::new();
    {
        let mut w = hound::WavWriter::new(std::io::Cursor::new(&mut bytes), spec).unwrap();
        // frames: (16383, -16383) -> 0, (32767, 32767) -> full scale
        w.write_sample(16_383i16).unwrap();
        w.write_sample(-16_383i16).unwrap();
        w.write_sample(32_767i16).unwrap();
        w.write_sample(32_767i16).unwrap();
        w.finalize().unwrap();
    }
    let loaded = decode_track(&bytes).unwrap();
    assert_eq!(loaded.len(), 2);
    assert_eq!(loaded[0], 0);
    assert_eq!(loaded[1], 65_536);
}

#[test]
fn float_wavs_are_rejected_as_unsupported_here() {
    let spec = hound::WavSpec {
        channels: 1,
        sample_rate: 44_100,
        bits_per_sample: 32,
        sample_format: hound::SampleFormat::Float,
    };
    let mut bytes: Vec<u8> = Vec::new();
    {
        let mut w = hound::WavWriter::new(std::io::Cursor::new(&mut bytes), spec).unwrap();
        w.write_sample(0.5f32).unwrap();
        w.finalize().unwrap();
    }
    assert!(decode_track(&bytes).is_none());
}

#[test]
fn new_project_has_one_wav_per_track() {
    let meta = ProjectMeta::new(String::from("session"));
    assert_eq!(meta.track_count, 4);
    assert_eq!(meta.bpm, 120);
    assert_eq!(meta.tracks.len(), 4);
    assert_eq!(meta.tracks[0].filename, "track_1.wav");
    assert_eq!(meta.tracks[3].filename, "track_4.wav");
    assert!(!meta.tracks[2].armed);
}
