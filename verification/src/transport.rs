//! Play / pause / stop / record / seek state machine with an optional loop
//! region over the shared playhead position.

use vstd::prelude::*;

use crate::constants::TRACK_SAMPLES;

verus! {

#[derive(Clone, Copy, PartialEq, Eq, Structural, Debug)]
pub enum TransportState {
    Stopped,
    Playing,
    Recording,
    Paused,
}

pub struct Transport {
    pub state: TransportState,
    /// Playhead, as a sample index.
    pub position: usize,
    /// Track currently being written, set only while recording.
    pub recording_track: Option<usize>,
    /// Maximum sample position reached across all tracks.
    pub max_position: usize,
    pub loop_enabled: bool,
    pub loop_end: Option<usize>,
}

impl Transport {
    /// Structural invariant: the playhead and the loop region stay within the
    /// track capacity, a loop end is only kept while looping is enabled, and
    /// a recording track is only set while recording.
    pub open spec fn inv(self) -> bool {
        &&& self.position <= TRACK_SAMPLES
        &&& self.max_position <= TRACK_SAMPLES
        &&& match self.loop_end {
            Some(l) => self.loop_enabled && 0 < l <= TRACK_SAMPLES,
            None => true,
        }
        &&& (self.recording_track is Some ==> self.state == TransportState::Recording)
    }

    pub open spec fn spec_is_playing(self) -> bool {
        self.state == TransportState::Playing || self.state == TransportState::Recording
    }

    /// One past the largest position `seek` may land on: the loop end while a
    /// loop region is set, the track capacity otherwise.
    pub open spec fn effective_max(self) -> int {
        if self.loop_enabled {
            match self.loop_end {
                Some(l) => l as int,
                None => TRACK_SAMPLES as int,
            }
        } else {
            TRACK_SAMPLES as int
        }
    }

    /// The playhead after one advance in a playing state: wraps to 0 when a
    /// loop region is reached, otherwise moves forward and clamps at the
    /// track capacity.
    pub open spec fn next_position(self) -> int {
        if self.loop_enabled && self.loop_end is Some && self.position + 1
            >= self.loop_end.unwrap() {
            0
        } else if self.position + 1 <= TRACK_SAMPLES {
            self.position + 1
        } else {
            TRACK_SAMPLES as int
        }
    }

    pub fn new() -> (t: Transport)
        ensures
            t.inv(),
            t.state == TransportState::Stopped,
            t.position == 0,
            t.recording_track is None,
            t.max_position == 0,
            t.loop_enabled,
            t.loop_end is None,
    {
        Transport {
            state: TransportState::Stopped,
            position: 0,
            recording_track: None,
            max_position: 0,
            loop_enabled: true,
            loop_end: None,
        }
    }

    /// Starts playback from Stopped or Paused; a running recording keeps
    /// recording and ongoing playback is unaffected.
    pub fn play(&mut self)
        requires
            old(self).inv(),
        ensures
            final(self).inv(),
            final(self).state == (if old(self).state == TransportState::Recording {
                TransportState::Recording
            } else {
                TransportState::Playing
            }),
            final(self).position == old(self).position,
            final(self).recording_track == old(self).recording_track,
            final(self).max_position == old(self).max_position,
            final(self).loop_enabled == old(self).loop_enabled,
            final(self).loop_end == old(self).loop_end,
    {
        match self.state {
            TransportState::Stopped | TransportState::Paused => {
                self.state = TransportState::Playing;
            }
            TransportState::Recording => {}
            TransportState::Playing => {}
        }
    }

    /// Toggles Playing and Paused; Stopped and Recording are unaffected.
    pub fn pause(&mut self)
        requires
            old(self).inv(),
        ensures
            final(self).inv(),
            final(self).state == (if old(self).state == TransportState::Playing {
                TransportState::Paused
            } else if old(self).state == TransportState::Paused {
                TransportState::Playing
            } else {
                old(self).state
            }),
            final(self).position == old(self).position,
            final(self).recording_track == old(self).recording_track,
            final(self).max_position == old(self).max_position,
            final(self).loop_enabled == old(self).loop_enabled,
            final(self).loop_end == old(self).loop_end,
    {
        match self.state {
            TransportState::Playing => {
                self.state = TransportState::Paused;
            }
            TransportState::Paused => {
                self.state = TransportState::Playing;
            }
            _ => {}
        }
    }

    /// Stops, clears the recording assignment and rewinds to the start.
    pub fn stop(&mut self)
        requires
            old(self).inv(),
        ensures
            final(self).inv(),
            final(self).state == TransportState::Stopped,
            final(self).position == 0,
            final(self).recording_track is None,
            final(self).max_position == old(self).max_position,
            final(self).loop_enabled == old(self).loop_enabled,
            final(self).loop_end == old(self).loop_end,
    {
        self.state = TransportState::Stopped;
        self.recording_track = None;
        self.position = 0;
    }

    /// Enters Recording with the given destination track.
    pub fn record(&mut self, track: usize)
        requires
            old(self).inv(),
        ensures
            final(self).inv(),
            final(self).state == TransportState::Recording,
            final(self).recording_track == Some(track),
            final(self).position == old(self).position,
            final(self).max_position == old(self).max_position,
            final(self).loop_enabled == old(self).loop_enabled,
            final(self).loop_end == old(self).loop_end,
    {
        self.state = TransportState::Recording;
        self.recording_track = Some(track);
    }

    /// Leaves Recording and continues playing.
    pub fn stop_record(&mut self)
        requires
            old(self).inv(),
        ensures
            final(self).inv(),
            final(self).state == TransportState::Playing,
            final(self).recording_track is None,
            final(self).position == old(self).position,
            final(self).max_position == old(self).max_position,
            final(self).loop_enabled == old(self).loop_enabled,
            final(self).loop_end == old(self).loop_end,
    {
        self.recording_track = None;
        self.state = TransportState::Playing;
    }

    /// Moves the playhead; out-of-range positions are silently clamped to the
    /// last position inside the loop region (loop enabled) or the track.
    pub fn seek(&mut self, pos: usize)
        requires
            old(self).inv(),
        ensures
            final(self).inv(),
            final(self).position == if pos <= old(self).effective_max() - 1 {
                pos as int
            } else {
                old(self).effective_max() - 1
            },
            final(self).state == old(self).state,
            final(self).recording_track == old(self).recording_track,
            final(self).max_position == old(self).max_position,
            final(self).loop_enabled == old(self).loop_enabled,
            final(self).loop_end == old(self).loop_end,
    {
        let max_pos: usize = if self.loop_enabled {
            match self.loop_end {
                Some(l) => l - 1,
                None => TRACK_SAMPLES - 1,
            }
        } else {
            TRACK_SAMPLES - 1
        };
        self.position = if pos < max_pos {
            pos
        } else {
            max_pos
        };
    }

    /// Moves the playhead forward by one sample while playing or recording:
    /// wraps to 0 at the loop end, otherwise clamps at the track capacity.
    /// Returns whether the playhead moved at all.
    pub fn advance(&mut self) -> (advanced: bool)
        requires
            old(self).inv(),
        ensures
            final(self).inv(),
            advanced == old(self).spec_is_playing(),
            final(self).position == if advanced {
                old(self).next_position()
            } else {
                old(self).position as int
            },
            final(self).max_position == if advanced && final(self).position > old(self).max_position {
                final(self).position as int
            } else {
                old(self).max_position as int
            },
            final(self).state == old(self).state,
            final(self).recording_track == old(self).recording_track,
            final(self).loop_enabled == old(self).loop_enabled,
            final(self).loop_end == old(self).loop_end,
    {
        match self.state {
            TransportState::Playing | TransportState::Recording => {
                let mut next = if self.position < TRACK_SAMPLES {
                    self.position + 1
                } else {
                    TRACK_SAMPLES
                };
                if self.loop_enabled {
                    if let Some(loop_end) = self.loop_end {
                        if next >= loop_end {
                            next = 0;
                        }
                    }
                }
                self.position = next;
                if self.position > self.max_position {
                    self.max_position = self.position;
                }
                true
            }
            _ => false,
        }
    }

    pub fn is_playing(&self) -> (r: bool)
        ensures
            r == self.spec_is_playing(),
    {
        match self.state {
            TransportState::Playing | TransportState::Recording => true,
            _ => false,
        }
    }

    /// Enables or disables looping; disabling clears the loop region.
    pub fn set_loop_enabled(&mut self, enabled: bool)
        requires
            old(self).inv(),
        ensures
            final(self).inv(),
            final(self).loop_enabled == enabled,
            final(self).loop_end == if enabled {
                old(self).loop_end
            } else {
                None::<usize>
            },
            final(self).state == old(self).state,
            final(self).position == old(self).position,
            final(self).recording_track == old(self).recording_track,
            final(self).max_position == old(self).max_position,
    {
        self.loop_enabled = enabled;
        if !enabled {
            self.loop_end = None;
        }
    }

    pub fn loop_enabled(&self) -> (r: bool)
        ensures
            r == self.loop_enabled,
    {
        self.loop_enabled
    }

    /// Sets the loop region end. Zero-length regions are dropped, ends past
    /// the track capacity are clamped to it, and without looping enabled the
    /// region stays cleared.
    pub fn set_loop_end(&mut self, loop_end: Option<usize>)
        requires
            old(self).inv(),
        ensures
            final(self).inv(),
            final(self).loop_end == if old(self).loop_enabled {
                match loop_end {
                    Some(l) => if l == 0 {
                        None::<usize>
                    } else if l <= TRACK_SAMPLES {
                        Some(l)
                    } else {
                        Some(TRACK_SAMPLES)
                    },
                    None => None::<usize>,
                }
            } else {
                None::<usize>
            },
            final(self).state == old(self).state,
            final(self).position == old(self).position,
            final(self).recording_track == old(self).recording_track,
            final(self).max_position == old(self).max_position,
            final(self).loop_enabled == old(self).loop_enabled,
    {
        if self.loop_enabled {
            self.loop_end = match loop_end {
                Some(l) => if l == 0 {
                    None
                } else if l <= TRACK_SAMPLES {
                    Some(l)
                } else {
                    Some(TRACK_SAMPLES)
                },
                None => None,
            };
        } else {
            self.loop_end = None;
        }
    }

    pub fn loop_end(&self) -> (r: Option<usize>)
        ensures
            r == self.loop_end,
    {
        self.loop_end
    }
}

/// With looping enabled and a loop region of length `l`, an advance from any
/// playing position at or beyond `l - 1` returns the playhead to 0, so the
/// playhead cycles within `[0, l)` forever.
pub proof fn lemma_advance_wraps_at_loop_end(t: Transport, l: usize)
    requires
        t.inv(),
        t.spec_is_playing(),
        t.loop_end == Some(l),
        t.position + 1 >= l,
    ensures
        t.next_position() == 0,
{
}

/// With looping disabled the playhead ignores any loop end and advances
/// unboundedly, up to the track capacity.
pub proof fn lemma_advance_ignores_loop_when_disabled(t: Transport)
    requires
        t.inv(),
        t.spec_is_playing(),
        !t.loop_enabled,
    ensures
        t.position < TRACK_SAMPLES ==> t.next_position() == t.position + 1,
        t.position == TRACK_SAMPLES ==> t.next_position() == TRACK_SAMPLES as int,
{
}

} // verus!
