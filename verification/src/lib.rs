//! A terminal four-track audio workstation core: transport state machine,
//! mixer gain law, track buffers, drum sequencer clock, synthesis voices,
//! effect chains and tape coloration, all modelled over fixed-point samples
//! so that every state transition and every sample computation carries a
//! verified contract.

pub mod constants;
pub mod buffer;
pub mod clock;
pub mod drums;
pub mod effects;
pub mod engine;
pub mod fx;
pub mod messages;
pub mod meter;
pub mod mixer;
pub mod modes;
pub mod pattern;
pub mod project;
pub mod synth;
pub mod tape;
pub mod transport;
pub mod voice;

use vstd::prelude::*;

verus! {

} // verus!
