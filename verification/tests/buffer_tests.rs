use tapedeck::buffer::{detect_loop_end, downsample_track, write_sample, SharedBuffers, TrackBuffer};

#[test]
fn write_extends_the_published_length() {
    let mut bufs = SharedBuffers::new();
    write_sample(&mut bufs, 1, 0, 10);
    write_sample(&mut bufs, 1, 1, -20);
    write_sample(&mut bufs, 1, 5, 30);
    assert_eq!(bufs.tracks[1].sample_count(), 6);
    assert_eq!(bufs.tracks[1].read(0), 10);
    assert_eq!(bufs.tracks[1].read(1), -20);
    assert_eq!(bufs.tracks[1].read(5), 30);
    // unwritten but published positions read as silence
    assert_eq!(bufs.tracks[1].read(3), 0);
    // past the published length reads as silence
    assert_eq!(bufs.tracks[1].read(6), 0);
    assert!(bufs.tracks[1].has_data());
}

#[test]
fn detect_loop_end_takes_the_longest_other_track() {
    let mut bufs = SharedBuffers::new();
    assert_eq!(detect_loop_end(&bufs, None), None);
    write_sample(&mut bufs, 0, 99, 1);
    write_sample(&mut bufs, 2, 499, 1);
    assert_eq!(detect_loop_end(&bufs, None), Some(500));
    assert_eq!(detect_loop_end(&bufs, Some(2)), Some(100));
}

#[test]
fn downsample_reports_peak_magnitude_per_pixel() {
    let mut t = TrackBuffer::new();
    t.write(0, 5);
    t.write(1, -80);
    t.write(2, 7);
    t.write(3, 40);
    let peaks = downsample_track(&t, 2);
    assert_eq!(peaks, vec![80, 40]);
    let empty = downsample_track(&TrackBuffer::new(), 3);
    assert_eq!(empty, vec![0, 0, 0]);
}
