//! Immutable values crossing the thread boundary: commands from the control
//! thread into the audio callback, and telemetry flowing back.

use vstd::prelude::*;

verus! {

/// Which sources feed an armed track while recording.
#[derive(Debug, Clone, Copy, PartialEq, Eq, Structural)]
pub enum RecordSource {
    Mic,
    Synth,
    Drum,
    /// Synth and drums together.
    Internal,
    All,
}

impl RecordSource {
    pub open spec fn takes_mic(self) -> bool {
        self == RecordSource::Mic || self == RecordSource::All
    }

    pub open spec fn takes_synth(self) -> bool {
        self == RecordSource::Synth || self == RecordSource::All || self == RecordSource::Internal
    }

    pub open spec fn takes_drum(self) -> bool {
        self == RecordSource::Drum || self == RecordSource::All || self == RecordSource::Internal
    }

    /// The next source in the cycling order.
    pub fn next(self) -> (r: RecordSource)
        ensures
            r == match self {
                RecordSource::Mic => RecordSource::Synth,
                RecordSource::Synth => RecordSource::Drum,
                RecordSource::Drum => RecordSource::Internal,
                RecordSource::Internal => RecordSource::All,
                RecordSource::All => RecordSource::Mic,
            },
    {
        match self {
            RecordSource::Mic => RecordSource::Synth,
            RecordSource::Synth => RecordSource::Drum,
            RecordSource::Drum => RecordSource::Internal,
            RecordSource::Internal => RecordSource::All,
            RecordSource::All => RecordSource::Mic,
        }
    }

    pub fn label(self) -> (r: &'static str)
        ensures
            self == RecordSource::Mic ==> r@ == "MIC"@,
            self == RecordSource::Synth ==> r@ == "SYNTH"@,
            self == RecordSource::Drum ==> r@ == "DRUM"@,
            self == RecordSource::Internal ==> r@ == "INTERNAL"@,
            self == RecordSource::All ==> r@ == "ALL"@,
    {
        match self {
            RecordSource::Mic => "MIC",
            RecordSource::Synth => "SYNTH",
            RecordSource::Drum => "DRUM",
            RecordSource::Internal => "INTERNAL",
            RecordSource::All => "ALL",
        }
    }
}

/// Commands from the control thread to the audio callback. Values carrying a
/// level, pan, parameter or tempo are fixed-point samples (multiples of
/// `1 / FX_ONE`); every out-of-range value is clamped where it is applied,
/// never rejected.
#[derive(Debug, Clone)]
pub enum AudioCmd {
    Play,
    Pause,
    Stop,
    Record(usize),
    StopRecord,
    Seek(usize),
    SetLoopEnabled(bool),
    SetLevel(usize, i64),
    SetPan(usize, i64),
    SetMute(usize, bool),
    SetSolo(usize, bool),
    NoteOn(u8, i64),
    NoteOff(u8),
    SelectEngine(usize),
    SetParam(usize, i64),
    ToggleStep(usize, usize),
    SetBpm(u32),
    ToggleTapeSim,
    SetTapeSpeed(i64),
    ToggleEffect(usize, usize),
    SetEffectParam(usize, usize, usize, i64),
    SetRecordSource(RecordSource),
}

/// Telemetry from the audio callback to the control thread.
#[derive(Debug, Clone)]
pub enum AudioMsg {
    Position(usize),
    CurrentStep(usize),
    Levels([i64; 4]),
    Peaks([i64; 4]),
    MasterLevel(i64, i64),
}

/// Transport state as shown by the UI.
#[derive(Debug, Clone, Copy, PartialEq, Eq, Structural)]
pub enum TransportDisplay {
    Stopped,
    Playing,
    Recording,
    Paused,
}

/// Per-track state as shown by the UI.
#[derive(Debug, Clone, Copy)]
pub struct TrackDisplay {
    pub armed: bool,
    pub muted: bool,
    pub solo: bool,
    pub level: i64,
    pub pan: i64,
}

impl Default for TrackDisplay {
    /// An unarmed, unmuted track at level 0.8, centered.
    fn default() -> (r: TrackDisplay)
        ensures
            !r.armed,
            !r.muted,
            !r.solo,
            r.level == 52429,
            r.pan == 0,
    {
        TrackDisplay { armed: false, muted: false, solo: false, level: 52429, pan: 0 }
    }
}

} // verus!
