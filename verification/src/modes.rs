//! The UI's top-level modes and the key-hint table shown for each.

use vstd::prelude::*;

verus! {

#[derive(Debug, Clone, Copy, PartialEq, Eq, Structural)]
pub enum AppMode {
    Tape,
    Synth,
    Drum,
    Mixer,
}

impl AppMode {
    /// The next mode in the cycling order.
    pub fn next(self) -> (r: AppMode)
        ensures
            r == match self {
                AppMode::Tape => AppMode::Synth,
                AppMode::Synth => AppMode::Drum,
                AppMode::Drum => AppMode::Mixer,
                AppMode::Mixer => AppMode::Tape,
            },
    {
        match self {
            AppMode::Tape => AppMode::Synth,
            AppMode::Synth => AppMode::Drum,
            AppMode::Drum => AppMode::Mixer,
            AppMode::Mixer => AppMode::Tape,
        }
    }

    pub fn label(self) -> (r: &'static str)
        ensures
            self == AppMode::Tape ==> r@ == "TAPE"@,
            self == AppMode::Synth ==> r@ == "SYNTH"@,
            self == AppMode::Drum ==> r@ == "DRUM"@,
            self == AppMode::Mixer ==> r@ == "MIXER"@,
    {
        match self {
            AppMode::Tape => "TAPE",
            AppMode::Synth => "SYNTH",
            AppMode::Drum => "DRUM",
            AppMode::Mixer => "MIXER",
        }
    }
}

/// Key labels for the hint bar: the mode-specific bindings first, then the
/// global ones.
pub fn key_hints(mode: AppMode) -> (r: Vec<(&'static str, &'static str)>)
    ensures
        r@.len() == match mode {
            AppMode::Tape => 13int,
            AppMode::Synth => 11int,
            AppMode::Drum => 11int,
            AppMode::Mixer => 12int,
        },
{
    let mut hints: Vec<(&'static str, &'static str)> = Vec::new();
    match mode {
        AppMode::Tape => {
            hints.push(("R", "Record"));
            hints.push(("A", "Arm"));
            hints.push(("1-4", "Track"));
            hints.push(("M", "Mute"));
            hints.push(("S", "Solo"));
            hints.push(("[/]", "Seek"));
        }
        AppMode::Synth => {
            hints.push(("Z-M", "Play"));
            hints.push(("R", "Record"));
            hints.push(("<-/->", "Engine"));
            hints.push(("Up/Dn", "Param"));
        }
        AppMode::Drum => {
            hints.push(("Z-K", "Steps"));
            hints.push(("1-6", "Inst"));
            hints.push(("Up/Dn", "BPM"));
            hints.push(("R", "Record"));
        }
        AppMode::Mixer => {
            hints.push(("1-4", "Track"));
            hints.push(("Up/Dn", "Level"));
            hints.push(("<-/->", "Pan"));
            hints.push(("M", "Mute"));
            hints.push(("S", "Solo"));
        }
    }
    hints.push(("Space", "Play/Pause"));
    hints.push(("Enter", "Stop"));
    hints.push(("Ctrl+S", "Save"));
    hints.push(("Ctrl+L", "Load"));
    hints.push(("I", "Input Src"));
    hints.push(("Tab", "Mode"));
    hints.push(("Esc", "Quit"));
    hints
}

} // verus!
