//! The audio engine core: everything the real-time callback does each
//! frame, as a value owned by the callback and driven by commands. It
//! drains commands at block start, then per frame generates the synth and
//! drum samples, runs the record count-in and metronome, writes the armed
//! track, reads and mixes every track through its effect chain, applies
//! tape coloration, hard-clips, meters, and advances the transport.

use vstd::prelude::*;

use crate::buffer::{detect_loop_end, SharedBuffers};
use crate::clock::{reports_new_step, samples_per_beat, step_of, SequencerClock};
use crate::constants::{
    FX_ONE, INSTRUMENT_COUNT, SAMPLE_RATE_SAMPLES, STEP_COUNT, TRACK_COUNT, TRACK_SAMPLES,
};
use crate::drums::{kit_sum, voice_step, DrumKit, DrumVoice};
use crate::effects::{chain_out_upto, chain_stepped, EffectChain};
use crate::fx::{
    clamp_i64, clamp_spec, div_pos, fx_mul, fx_mul_spec, lemma_fx_mul_contract, osc_wave,
    osc_wave_spec, tdiv,
};
use crate::messages::{AudioCmd, RecordSource};
use crate::meter::{meter_pushed, LevelMeter};
use crate::mixer::MixerState;
use crate::pattern::PatternBank;
use crate::synth::{
    synth_sum, voice_stepped, SynthEngine, ENGINE_COUNT, MAX_VOICES, SYNTH_OUT_MAX,
};
use crate::tape::{tape_out_l_spec, tape_out_r_spec, tape_stepped, TapeSimulation};
use crate::transport::{Transport, TransportState};

verus! {

/// Frames between telemetry reports (thirty per second).
pub const REPORT_INTERVAL: usize = 1470;

/// Count-in length, in beats.
pub const COUNT_IN_BEATS: usize = 4;

/// Length of one metronome click, in samples.
pub const CLICK_LEN: usize = 1102;

/// Largest pre-clip sample the output path can produce.
pub const OUT_PRE_MAX: i64 = 0x10_0000_0000;

/// One output frame: the clipped stereo pair, the step boundary to report
/// if any, whether the microphone sample offered was consumed, and the
/// telemetry report when one falls due this frame.
pub struct FrameOut {
    pub left: i64,
    pub right: i64,
    pub step_msg: Option<usize>,
    pub mic_consumed: bool,
    pub report: Option<Report>,
}

/// One telemetry report: playhead position, per-track RMS levels and
/// decaying peaks, and master RMS.
pub struct Report {
    pub position: usize,
    pub levels: [i64; TRACK_COUNT],
    pub peaks: [i64; TRACK_COUNT],
    pub master_l: i64,
    pub master_r: i64,
}

/// A drum voice as retriggering leaves it.
pub open spec fn trig_applied(v: DrumVoice, trig: bool) -> DrumVoice {
    if trig {
        DrumVoice { phase: 0, envelope: FX_ONE, pitch_env: FX_ONE, active: true, ..v }
    } else {
        v
    }
}

/// Whether this frame's tick fires instrument `i`.
pub open spec fn fires(e: EngineCore, seq_pos: usize, i: int) -> bool {
    &&& reports_new_step(e.clock.last_step, e.clock.bpm, seq_pos)
    &&& e.patterns.patterns@[i].steps@[step_of(e.clock.bpm, seq_pos)]
}

/// The synth pool relation over a whole tick.
pub open spec fn synth_stepped(a: SynthEngine, b: SynthEngine) -> bool {
    &&& b.kind == a.kind
    &&& b.params == a.params
    &&& b.voices@.len() == MAX_VOICES
    &&& forall|i: int|
        0 <= i < MAX_VOICES ==> voice_stepped(a.kind, a.params, a.voices@[i], #[trigger] b.voices@[i])
}

pub struct EngineCore {
    pub transport: Transport,
    pub mixer: MixerState,
    pub clock: SequencerClock,
    pub patterns: PatternBank,
    pub drums: DrumKit,
    pub synth: SynthEngine,
    pub engine_index: usize,
    pub chains: Vec<EffectChain>,
    pub tape: TapeSimulation,
    pub record_source: RecordSource,
    pub free_counter: u64,
    pub pending_record_track: Option<usize>,
    pub count_in_remaining: usize,
    pub count_in_to_next_click: usize,
    pub count_in_click_index: usize,
    pub click_remaining: usize,
    pub click_phase: i64,
    pub click_freq: i64,
    pub click_amp: i64,
    pub track_meters: Vec<LevelMeter>,
    pub master_l: LevelMeter,
    pub master_r: LevelMeter,
    pub report_counter: usize,
}

impl EngineCore {
    pub open spec fn inv(self) -> bool {
        &&& self.transport.inv()
        &&& self.mixer.inv()
        &&& self.clock.inv()
        &&& self.patterns.patterns@.len() == INSTRUMENT_COUNT
        &&& self.drums.inv()
        &&& self.synth.inv()
        &&& self.engine_index < ENGINE_COUNT
        &&& self.chains@.len() == TRACK_COUNT
        &&& forall|i: int| 0 <= i < TRACK_COUNT ==> (#[trigger] self.chains@[i]).inv()
        &&& self.tape.inv()
        &&& self.click_remaining <= CLICK_LEN
        &&& 0 <= self.click_phase < FX_ONE
        &&& 0 <= self.click_freq <= 131_072_000
        &&& 0 <= self.click_amp <= FX_ONE
        &&& self.count_in_to_next_click <= 66_150
        &&& self.count_in_remaining <= 4 * 66_150
        &&& self.track_meters@.len() == TRACK_COUNT
        &&& forall|i: int| 0 <= i < TRACK_COUNT ==> (#[trigger] self.track_meters@[i]).inv()
        &&& forall|i: int|
            0 <= i < TRACK_COUNT ==> (#[trigger] self.track_meters@[i]).count
                <= self.report_counter
        &&& self.master_l.inv()
        &&& self.master_r.inv()
        &&& self.master_l.count <= self.report_counter
        &&& self.master_r.count <= self.report_counter
        &&& self.report_counter < REPORT_INTERVAL
    }

    pub fn new() -> (e: EngineCore)
        ensures
            e.inv(),
            e.transport.state == TransportState::Stopped,
            e.transport.position == 0,
            e.transport.recording_track is None,
            e.transport.loop_enabled,
            e.transport.loop_end is None,
            forall|i: int|
                0 <= i < TRACK_COUNT ==> {
                    &&& #[trigger] e.mixer.levels@[i] == 52429
                    &&& e.mixer.pans@[i] == 0
                    &&& !e.mixer.mutes@[i]
                    &&& !e.mixer.solos@[i]
                },
            e.clock.bpm == 120,
            e.clock.last_step is None,
            forall|k: int, i: int|
                0 <= k < INSTRUMENT_COUNT && 0 <= i < STEP_COUNT
                    ==> !#[trigger] e.patterns.patterns@[k].steps@[i],
            forall|i: int| 0 <= i < INSTRUMENT_COUNT ==> !(#[trigger] e.drums.voices@[i]).active,
            e.synth.kind == crate::synth::EngineKind::Sine,
            forall|i: int| 0 <= i < MAX_VOICES ==> !(#[trigger] e.synth.voices@[i]).active,
            forall|i: int| 0 <= i < TRACK_COUNT ==> (#[trigger] e.chains@[i]).effects@.len() == 0,
            !e.tape.enabled,
            e.record_source == RecordSource::Internal,
            e.engine_index == 0,
            e.pending_record_track is None,
            e.count_in_remaining == 0,
            e.click_remaining == 0,
            e.free_counter == 0,
            e.report_counter == 0,
    {
        let mut chains: Vec<EffectChain> = Vec::new();
        let mut k: usize = 0;
        while k < TRACK_COUNT
            invariant
                k <= TRACK_COUNT,
                chains@.len() == k,
                forall|i: int| 0 <= i < k ==> (#[trigger] chains@[i]).inv(),
                forall|i: int| 0 <= i < k ==> (#[trigger] chains@[i]).effects@.len() == 0,
            decreases TRACK_COUNT - k,
        {
            chains.push(EffectChain::new());
            k = k + 1;
        }
        let mut track_meters: Vec<LevelMeter> = Vec::new();
        let mut k2: usize = 0;
        while k2 < TRACK_COUNT
            invariant
                k2 <= TRACK_COUNT,
                track_meters@.len() == k2,
                forall|i: int| 0 <= i < k2 ==> (#[trigger] track_meters@[i]).inv(),
                forall|i: int| 0 <= i < k2 ==> (#[trigger] track_meters@[i]).count == 0,
            decreases TRACK_COUNT - k2,
        {
            track_meters.push(LevelMeter::new());
            k2 = k2 + 1;
        }
        EngineCore {
            transport: Transport::new(),
            mixer: MixerState::new(),
            clock: SequencerClock::new(120),
            patterns: PatternBank::new(INSTRUMENT_COUNT),
            drums: DrumKit::new(),
            synth: SynthEngine::new(crate::synth::EngineKind::Sine),
            engine_index: 0,
            chains,
            tape: TapeSimulation::new(),
            record_source: RecordSource::Internal,
            free_counter: 0,
            pending_record_track: None,
            count_in_remaining: 0,
            count_in_to_next_click: 0,
            count_in_click_index: 0,
            click_remaining: 0,
            click_phase: 0,
            click_freq: 98_304_000,
            click_amp: 0,
            track_meters,
            master_l: LevelMeter::new(),
            master_r: LevelMeter::new(),
            report_counter: 0,
        }
    }

    /// Runs the synth tick, the sequencer tick at the given position
    /// (triggering patterned drums on a step boundary), and the drum tick.
    /// Returns the synth sample, the drum sample, and the step boundary to
    /// report, if any.
    fn gen_sources(&mut self, seq_pos: usize) -> (r: (i64, i64, Option<usize>))
        requires
            old(self).inv(),
        ensures
            final(self).inv(),
            synth_stepped(old(self).synth, final(self).synth),
            r.0 == synth_sum(
                old(self).synth.kind,
                old(self).synth.params,
                old(self).synth.voices@,
                MAX_VOICES as int,
            ),
            -SYNTH_OUT_MAX <= r.0 <= SYNTH_OUT_MAX,
            forall|i: int|
                0 <= i < INSTRUMENT_COUNT ==> #[trigger] final(self).drums.voices@[i] == voice_step(
                    trig_applied(old(self).drums.voices@[i], fires(*old(self), seq_pos, i)),
                ),
            r.1 == frame_drum_out(*old(self), seq_pos),
            -3 * FX_ONE <= r.1 <= 3 * FX_ONE,
            final(self).clock.bpm == old(self).clock.bpm,
            final(self).clock.last_step == Some(
                (step_of(old(self).clock.bpm, seq_pos) as usize),
            ),
            r.2 == if reports_new_step(old(self).clock.last_step, old(self).clock.bpm, seq_pos) {
                Some((step_of(old(self).clock.bpm, seq_pos) as usize))
            } else {
                None::<usize>
            },
            final(self).transport == old(self).transport,
            final(self).mixer == old(self).mixer,
            final(self).patterns.patterns@ == old(self).patterns.patterns@,
            final(self).chains@ == old(self).chains@,
            final(self).tape == old(self).tape,
            final(self).record_source == old(self).record_source,
            final(self).engine_index == old(self).engine_index,
            final(self).pending_record_track == old(self).pending_record_track,
            final(self).count_in_remaining == old(self).count_in_remaining,
            final(self).count_in_to_next_click == old(self).count_in_to_next_click,
            final(self).count_in_click_index == old(self).count_in_click_index,
            final(self).click_remaining == old(self).click_remaining,
            final(self).click_phase == old(self).click_phase,
            final(self).click_freq == old(self).click_freq,
            final(self).click_amp == old(self).click_amp,
            final(self).track_meters@ == old(self).track_meters@,
            final(self).master_l == old(self).master_l,
            final(self).master_r == old(self).master_r,
            final(self).report_counter == old(self).report_counter,
            final(self).free_counter == old(self).free_counter,
    {
        let synth_sample = self.synth.tick();
        let ghost mid_synth = self.synth;
        let (step, new_step) = self.clock.tick(seq_pos);
        let ghost mid_clock = self.clock;
        let msg: Option<usize> = if new_step {
            let mut inst: usize = 0;
            while inst < INSTRUMENT_COUNT
                invariant
                    old(self).inv(),
                    self.patterns.patterns@ == old(self).patterns.patterns@,
                    self.drums.inv(),
                    self.drums.names == old(self).drums.names,
                    self.drums.voices@.len() == INSTRUMENT_COUNT,
                    self.synth == mid_synth,
                    mid_synth.inv(),
                    synth_stepped(old(self).synth, mid_synth),
                    self.clock == mid_clock,
                    mid_clock.inv(),
                    mid_clock.bpm == old(self).clock.bpm,
                    mid_clock.last_step == Some((step_of(old(self).clock.bpm, seq_pos) as usize)),
                    self.transport == old(self).transport,
                    self.mixer == old(self).mixer,
                    self.chains@ == old(self).chains@,
                    self.tape == old(self).tape,
                    self.record_source == old(self).record_source,
                    self.engine_index == old(self).engine_index,
                    self.pending_record_track == old(self).pending_record_track,
                    self.count_in_remaining == old(self).count_in_remaining,
                    self.count_in_to_next_click == old(self).count_in_to_next_click,
                    self.count_in_click_index == old(self).count_in_click_index,
                    self.click_remaining == old(self).click_remaining,
                    self.click_phase == old(self).click_phase,
                    self.click_freq == old(self).click_freq,
                    self.click_amp == old(self).click_amp,
                    self.track_meters@ == old(self).track_meters@,
                    self.master_l == old(self).master_l,
                    self.master_r == old(self).master_r,
                    self.report_counter == old(self).report_counter,
                    self.free_counter == old(self).free_counter,
                    inst <= INSTRUMENT_COUNT,
                    step < STEP_COUNT,
                    step == step_of(old(self).clock.bpm, seq_pos),
                    reports_new_step(old(self).clock.last_step, old(self).clock.bpm, seq_pos),
                    forall|i: int|
                        0 <= i < inst ==> #[trigger] self.drums.voices@[i] == trig_applied(
                            old(self).drums.voices@[i],
                            fires(*old(self), seq_pos, i),
                        ),
                    forall|i: int|
                        inst <= i < INSTRUMENT_COUNT ==> #[trigger] self.drums.voices@[i] == old(self).drums.voices@[i],
                decreases INSTRUMENT_COUNT - inst,
            {
                if self.patterns.patterns[inst].is_active(step) {
                    self.drums.trigger(inst);
                }
                inst = inst + 1;
            }
            Some(step)
        } else {
            proof {
                assert(forall|i: int|
                    0 <= i < INSTRUMENT_COUNT ==> #[trigger] self.drums.voices@[i] == trig_applied(
                        old(self).drums.voices@[i],
                        fires(*old(self), seq_pos, i),
                    ));
            }
            None
        };
        proof {
            assert(self.drums.voices@ =~= Seq::new(
                INSTRUMENT_COUNT as nat,
                |i: int| trig_applied(old(self).drums.voices@[i], fires(*old(self), seq_pos, i)),
            ));
        }
        let drum_sample = self.drums.process();
        (synth_sample, drum_sample, msg)
    }

    /// Advances the count-in machine by one sample. When the count-in
    /// expires, recording starts: the playhead rewinds to the loop start,
    /// the sequencer clock resets, and the armed track begins recording.
    /// While counting, a click is (re)armed at each beat boundary.
    fn count_in_step(&mut self) -> (fired: bool)
        requires
            old(self).inv(),
        ensures
            final(self).inv(),
            fired == (old(self).pending_record_track is Some && old(self).count_in_remaining == 0),
            old(self).pending_record_track is None ==> *final(self) == *old(self),
            fired ==> {
                &&& final(self).transport.state == TransportState::Recording
                &&& final(self).transport.recording_track == old(self).pending_record_track
                &&& final(self).transport.position == 0
                &&& final(self).pending_record_track is None
                &&& final(self).clock.last_step is None
                &&& final(self).clock.bpm == old(self).clock.bpm
                &&& final(self).transport.loop_enabled == old(self).transport.loop_enabled
                &&& final(self).transport.loop_end == old(self).transport.loop_end
            },
            old(self).pending_record_track is Some && !fired ==> {
                &&& final(self).transport == old(self).transport
                &&& final(self).count_in_remaining == old(self).count_in_remaining - 1
                &&& final(self).pending_record_track == old(self).pending_record_track
            },
            final(self).click_remaining == click_mid(*old(self)).0,
            final(self).click_phase == click_mid(*old(self)).1,
            final(self).click_freq == click_mid(*old(self)).2,
            final(self).click_amp == click_mid(*old(self)).3,
            final(self).mixer == old(self).mixer,
            final(self).synth.voices@ == old(self).synth.voices@,
            final(self).synth.kind == old(self).synth.kind,
            final(self).synth.params == old(self).synth.params,
            final(self).drums.voices@ == old(self).drums.voices@,
            final(self).patterns.patterns@ == old(self).patterns.patterns@,
            final(self).chains@ == old(self).chains@,
            final(self).tape == old(self).tape,
            final(self).record_source == old(self).record_source,
            final(self).engine_index == old(self).engine_index,
            final(self).track_meters@ == old(self).track_meters@,
            final(self).master_l == old(self).master_l,
            final(self).master_r == old(self).master_r,
            final(self).report_counter == old(self).report_counter,
            final(self).free_counter == old(self).free_counter,
    {
        let pending = self.pending_record_track;
        match pending {
            None => false,
            Some(track) => {
                if self.count_in_remaining == 0 {
                    self.transport.seek(0);
                    self.clock.reset();
                    self.transport.record(track);
                    self.pending_record_track = None;
                    true
                } else {
                    if self.count_in_to_next_click == 0 {
                        let accented = self.count_in_click_index % COUNT_IN_BEATS == 0;
                        self.click_freq = if accented {
                            124_518_400
                        } else {
                            98_304_000
                        };
                        self.click_amp = if accented {
                            20_972
                        } else {
                            14_418
                        };
                        self.click_phase = 0;
                        self.click_remaining = CLICK_LEN;
                        self.count_in_click_index = self.count_in_click_index.wrapping_add(1);
                        let bpm = self.clock.bpm();
                        proof {
                            vstd::arithmetic::div_mod::lemma_div_pos_is_pos(2_646_000, bpm as int);
                            vstd::arithmetic::div_mod::lemma_div_is_ordered_by_denominator(
                                2_646_000,
                                40,
                                bpm as int,
                            );
                        }
                        self.count_in_to_next_click = 2_646_000 / (bpm as usize);
                    }
                    if self.count_in_to_next_click > 0 {
                        self.count_in_to_next_click = self.count_in_to_next_click - 1;
                    }
                    self.count_in_remaining = self.count_in_remaining - 1;
                    false
                }
            }
        }
    }

    /// The metronome's contribution this frame: a decaying click while one
    /// is sounding, silence otherwise.
    fn metronome_sample(&mut self) -> (m: i64)
        requires
            old(self).inv(),
        ensures
            final(self).inv(),
            -FX_ONE <= m <= FX_ONE,
            old(self).click_remaining == 0 ==> m == 0 && *final(self) == *old(self),
            old(self).click_remaining > 0 ==> m == fx_mul_spec(
                fx_mul_spec(
                    crate::fx::osc_wave_spec(old(self).click_phase as int),
                    old(self).click_amp as int,
                ),
                (old(self).click_remaining as int) * (FX_ONE as int) / (CLICK_LEN as int),
            ),
            final(self).click_remaining == if old(self).click_remaining > 0 {
                old(self).click_remaining - 1
            } else {
                0
            },
            final(self).transport == old(self).transport,
            final(self).mixer == old(self).mixer,
            final(self).clock == old(self).clock,
            final(self).synth.voices@ == old(self).synth.voices@,
            final(self).synth.kind == old(self).synth.kind,
            final(self).synth.params == old(self).synth.params,
            final(self).drums.voices@ == old(self).drums.voices@,
            final(self).patterns.patterns@ == old(self).patterns.patterns@,
            final(self).chains@ == old(self).chains@,
            final(self).tape == old(self).tape,
            final(self).record_source == old(self).record_source,
            final(self).engine_index == old(self).engine_index,
            final(self).pending_record_track == old(self).pending_record_track,
            final(self).count_in_remaining == old(self).count_in_remaining,
            final(self).track_meters@ == old(self).track_meters@,
            final(self).master_l == old(self).master_l,
            final(self).master_r == old(self).master_r,
            final(self).report_counter == old(self).report_counter,
            final(self).free_counter == old(self).free_counter,
    {
        if self.click_remaining == 0 {
            return 0;
        }
        proof {
            vstd::arithmetic::div_mod::lemma_div_pos_is_pos(
                (self.click_remaining as int) * (FX_ONE as int),
                CLICK_LEN as int,
            );
            assert((self.click_remaining as int) * (FX_ONE as int) <= (CLICK_LEN as int) * (
            FX_ONE as int)) by (nonlinear_arith)
                requires
                    self.click_remaining <= CLICK_LEN,
            ;
            vstd::arithmetic::div_mod::lemma_div_is_ordered(
                (self.click_remaining as int) * (FX_ONE as int),
                (CLICK_LEN as int) * (FX_ONE as int),
                CLICK_LEN as int,
            );
            vstd::arithmetic::div_mod::lemma_div_multiples_vanish(
                FX_ONE as int,
                CLICK_LEN as int,
            );
            assert((CLICK_LEN as int) * (FX_ONE as int) == (FX_ONE as int) * (CLICK_LEN as int));
        }
        let env = div_pos((self.click_remaining as i64) * FX_ONE, CLICK_LEN as i64);
        let wave = osc_wave(self.click_phase);
        proof {
            lemma_fx_mul_contract(wave as int, self.click_amp as int);
            lemma_fx_mul_contract(fx_mul_spec(wave as int, self.click_amp as int), env as int);
        }
        let m = fx_mul(fx_mul(wave, self.click_amp), env);
        proof {
            vstd::arithmetic::div_mod::lemma_div_pos_is_pos(
                self.click_freq as int,
                SAMPLE_RATE_SAMPLES as int,
            );
            vstd::arithmetic::div_mod::lemma_div_is_ordered(
                self.click_freq as int,
                131_072_000,
                SAMPLE_RATE_SAMPLES as int,
            );
            assert(131_072_000int / (SAMPLE_RATE_SAMPLES as int) < FX_ONE);
        }
        let inc = div_pos(self.click_freq, SAMPLE_RATE_SAMPLES as i64);
        let p = self.click_phase + inc;
        self.click_phase = if p >= FX_ONE {
            p - FX_ONE
        } else {
            p
        };
        self.click_remaining = self.click_remaining - 1;
        m
    }
}


/// The loop region derived from what has been recorded: the longest
/// published track length, absent when everything is empty.
pub open spec fn detected_loop_spec(b: SharedBuffers) -> Option<usize> {
    let m = crate::buffer::max_len_upto(b, None, TRACK_COUNT as int);
    if m == 0 {
        None
    } else if m <= TRACK_SAMPLES {
        Some(m as usize)
    } else {
        Some(TRACK_SAMPLES as usize)
    }
}

/// The sample recorded this frame: the clamped microphone sample when the
/// source takes the mic and one is available, plus the synth and drum
/// samples as the source selects.
pub open spec fn rec_mix_spec(
    src: RecordSource,
    mic: Option<i64>,
    synth_sample: int,
    drum_sample: int,
) -> int {
    (if src.takes_mic() && mic is Some {
        clamp_spec(mic.unwrap() as int, -FX_ONE as int, FX_ONE as int)
    } else {
        0
    }) + (if src.takes_synth() {
        synth_sample
    } else {
        0
    }) + (if src.takes_drum() {
        drum_sample
    } else {
        0
    })
}

/// The transport as the count-in leaves it this frame: unchanged unless the
/// count-in expires, which rewinds to the start and begins recording.
pub open spec fn transport_mid(e: EngineCore) -> Transport {
    if e.pending_record_track is Some && e.count_in_remaining == 0 {
        Transport {
            state: TransportState::Recording,
            recording_track: e.pending_record_track,
            position: 0,
            ..e.transport
        }
    } else {
        e.transport
    }
}

/// The synth sample this frame emits, from the engine state at frame start.
pub open spec fn frame_synth_out(e: EngineCore) -> int {
    synth_sum(e.synth.kind, e.synth.params, e.synth.voices@, MAX_VOICES as int)
}

/// The drum sample this frame emits: the kit after this tick's pattern
/// triggers, summed under the headroom halving.
pub open spec fn frame_drum_out(e: EngineCore, seq_pos: usize) -> int {
    tdiv(
        kit_sum(
            Seq::new(
                INSTRUMENT_COUNT as nat,
                |i: int| trig_applied(e.drums.voices@[i], fires(e, seq_pos, i)),
            ),
            INSTRUMENT_COUNT as int,
        ),
        2,
    )
}

/// The sequencer position this frame runs at: the playhead while playing,
/// the free-running counter otherwise.
pub open spec fn frame_seq_pos(e: EngineCore) -> usize {
    if e.transport.spec_is_playing() && e.transport.position < TRACK_SAMPLES {
        e.transport.position
    } else {
        (e.free_counter as usize)
    }
}

/// Whether this frame runs the playback path.
pub open spec fn frame_playing(e: EngineCore) -> bool {
    e.transport.spec_is_playing() && e.transport.position < TRACK_SAMPLES
}

/// The click state the count-in leaves for this frame, as (remaining,
/// phase, frequency, amplitude): a fresh click is armed at each beat
/// boundary of a running count-in, accented on the downbeat.
pub open spec fn click_mid(e: EngineCore) -> (int, int, int, int) {
    if e.pending_record_track is Some && e.count_in_remaining > 0 && e.count_in_to_next_click
        == 0 {
        if e.count_in_click_index % COUNT_IN_BEATS == 0 {
            (CLICK_LEN as int, 0int, 124_518_400int, 20_972int)
        } else {
            (CLICK_LEN as int, 0int, 98_304_000int, 14_418int)
        }
    } else {
        (
            e.click_remaining as int,
            e.click_phase as int,
            e.click_freq as int,
            e.click_amp as int,
        )
    }
}

/// The metronome's sample this frame: the click tone under its linearly
/// decaying envelope while one is sounding, silence otherwise.
pub open spec fn frame_metronome(e: EngineCore) -> int {
    let c = click_mid(e);
    if c.0 > 0 {
        fx_mul_spec(fx_mul_spec(osc_wave_spec(c.1), c.3), c.0 * FX_ONE / (CLICK_LEN as int))
    } else {
        0
    }
}

/// What the playback row feeds track `t`'s chain this frame: the freshly
/// recorded sample on the armed track, the stored sample inside the
/// published length, silence elsewhere.
pub open spec fn frame_track_in(e: EngineCore, b: SharedBuffers, mic: Option<i64>, t: int) -> int {
    let tmid = transport_mid(e);
    let pos = tmid.position;
    if tmid.recording_track is Some && pos < TRACK_SAMPLES && t == tmid.recording_track.unwrap() {
        rec_mix_spec(
            e.record_source,
            mic,
            frame_synth_out(e),
            frame_drum_out(e, frame_seq_pos(e)),
        ) as i32 as int
    } else if pos < b.tracks@[t].len {
        b.tracks@[t].data@[pos as int] as int
    } else {
        0
    }
}

/// One track's chain output for an input sample.
pub open spec fn chain_out_of(e: EngineCore, t: int, x: int) -> int {
    chain_out_upto(e.chains@[t].effects@, e.chains@[t].effects@.len() as int, x)
}

/// The pre-tape stereo pair while playing: the mixed chain outputs, the
/// live-monitor taps for sources not being recorded, and the metronome.
pub open spec fn frame_mix_pre(
    e: EngineCore,
    recording: bool,
    synth: int,
    drum: int,
    m: int,
    in0: int,
    in1: int,
    in2: int,
    in3: int,
) -> (int, int) {
    let taps = (if !recording || !e.record_source.takes_synth() {
        fx_mul_spec(synth, 32768)
    } else {
        0
    }) + (if !recording || !e.record_source.takes_drum() {
        fx_mul_spec(drum, 32768)
    } else {
        0
    }) + m;
    let cs = seq![
        chain_out_of(e, 0, in0) as i64,
        chain_out_of(e, 1, in1) as i64,
        chain_out_of(e, 2, in2) as i64,
        chain_out_of(e, 3, in3) as i64,
    ];
    (e.mixer.mix_left(cs) + taps, e.mixer.mix_right(cs) + taps)
}

/// The frame's pre-clip stereo output: the tape-colored playback mix while
/// playing, the halved synth-and-drum preview plus metronome otherwise.
pub open spec fn frame_out_pre(
    e: EngineCore,
    playing: bool,
    recording: bool,
    synth: int,
    drum: int,
    m: int,
    in0: int,
    in1: int,
    in2: int,
    in3: int,
) -> (int, int) {
    if playing {
        let pre = frame_mix_pre(e, recording, synth, drum, m, in0, in1, in2, in3);
        (tape_out_l_spec(e.tape, pre.0), tape_out_r_spec(e.tape, pre.1))
    } else {
        (fx_mul_spec(synth + drum, 32768) + m, fx_mul_spec(synth + drum, 32768) + m)
    }
}

/// The reported RMS level for a meter's accumulated squares: zero for an
/// empty meter, otherwise the integer square root of the mean square.
pub open spec fn rms_reported(m: LevelMeter, level: i64) -> bool {
    &&& (m.count == 0 ==> level == 0)
    &&& (m.count > 0 ==> (level as int) * (level as int) <= m.sum_sq as int / m.count as int && (
    m.sum_sq as int / m.count as int) < (level + 1) * (level + 1))
}

/// Track `t`'s meter after this frame: pushed with the chain output while
/// playing, untouched otherwise.
pub open spec fn frame_track_meter(e: EngineCore, playing: bool, t: int, inp: int) -> LevelMeter {
    if playing {
        meter_pushed(e.track_meters@[t], chain_out_of(e, t, inp))
    } else {
        e.track_meters@[t]
    }
}

impl EngineCore {
    /// Any armed or pending track index is a valid track.
    pub open spec fn tracks_ok(self) -> bool {
        &&& match self.transport.recording_track {
            Some(t) => t < TRACK_COUNT,
            None => true,
        }
        &&& match self.pending_record_track {
            Some(t) => t < TRACK_COUNT,
            None => true,
        }
    }

    /// One frame with the track buffers at hand: generates the sources,
    /// advances the count-in and metronome, writes the armed track, reads
    /// every track through its effect chain, mixes with the live-monitor
    /// taps, colors, hard-clips, meters and advances the playhead. A due
    /// telemetry report is drained into the frame.
    #[verifier::rlimit(100)]
    pub fn process_frame(&mut self, bufs: &mut SharedBuffers, mic: Option<i64>) -> (frame:
        FrameOut)
        requires
            old(self).inv(),
            old(self).tracks_ok(),
            old(bufs).inv(),
        ensures
            final(self).inv(),
            final(self).tracks_ok(),
            final(bufs).inv(),
            ({
                let fired = old(self).pending_record_track is Some && old(self).count_in_remaining == 0;
                let tmid = transport_mid(*old(self));
                let rec_active = tmid.recording_track is Some && tmid.position < TRACK_SAMPLES;
                let playing = old(self).transport.spec_is_playing() && old(self).transport.position
                    < TRACK_SAMPLES;
                let seq_pos = frame_seq_pos(*old(self));
                &&& frame.step_msg == (if fired {
                    Some(0usize)
                } else if reports_new_step(old(self).clock.last_step, old(self).clock.bpm, seq_pos) {
                    Some((step_of(old(self).clock.bpm, seq_pos) as usize))
                } else {
                    None::<usize>
                })
                &&& frame.mic_consumed == (rec_active && old(self).record_source.takes_mic()
                    && mic is Some)
                &&& (rec_active ==> {
                    let t = tmid.recording_track.unwrap() as int;
                    &&& final(bufs).tracks@[t].data@ == old(bufs).tracks@[t].data@.update(
                        tmid.position as int,
                        rec_mix_spec(
                            old(self).record_source,
                            mic,
                            frame_synth_out(*old(self)),
                            frame_drum_out(*old(self), seq_pos),
                        ) as i32,
                    )
                    &&& final(bufs).tracks@[t].len == (if tmid.position >= old(bufs).tracks@[t].len {
                        tmid.position + 1
                    } else {
                        old(bufs).tracks@[t].len as int
                    })
                    &&& forall|i: int|
                        0 <= i < TRACK_COUNT && i != t ==> #[trigger] final(bufs).tracks@[i]
                            == old(bufs).tracks@[i]
                })
                &&& (!rec_active ==> final(bufs).tracks@ == old(bufs).tracks@)
                &&& final(self).transport.state == tmid.state
                &&& final(self).transport.recording_track == tmid.recording_track
                &&& final(self).transport.position == (if playing {
                    tmid.next_position()
                } else {
                    tmid.position as int
                })
                &&& final(self).transport.loop_enabled == old(self).transport.loop_enabled
                &&& final(self).transport.loop_end == old(self).transport.loop_end
                &&& (frame.report is Some) == (old(self).report_counter + 1 == REPORT_INTERVAL)
                &&& final(self).report_counter == (if old(self).report_counter + 1
                    == REPORT_INTERVAL {
                    0int
                } else {
                    old(self).report_counter + 1
                })
                &&& final(self).record_source == old(self).record_source
                &&& final(self).mixer == old(self).mixer
                &&& final(self).engine_index == old(self).engine_index
                &&& final(self).patterns.patterns@ == old(self).patterns.patterns@
                &&& synth_stepped(old(self).synth, final(self).synth)
                &&& forall|i: int|
                    0 <= i < INSTRUMENT_COUNT ==> #[trigger] final(self).drums.voices@[i]
                        == voice_step(
                        trig_applied(old(self).drums.voices@[i], fires(*old(self), seq_pos, i)),
                    )
                &&& ({
                    let recording = tmid.recording_track is Some;
                    let synth = frame_synth_out(*old(self));
                    let drum = frame_drum_out(*old(self), seq_pos);
                    let m = frame_metronome(*old(self));
                    let in0 = frame_track_in(*old(self), *old(bufs), mic, 0);
                    let in1 = frame_track_in(*old(self), *old(bufs), mic, 1);
                    let in2 = frame_track_in(*old(self), *old(bufs), mic, 2);
                    let in3 = frame_track_in(*old(self), *old(bufs), mic, 3);
                    let outp = frame_out_pre(
                        *old(self),
                        playing,
                        recording,
                        synth,
                        drum,
                        m,
                        in0,
                        in1,
                        in2,
                        in3,
                    );
                    &&& frame.left == clamp_spec(outp.0, -FX_ONE as int, FX_ONE as int)
                    &&& frame.right == clamp_spec(outp.1, -FX_ONE as int, FX_ONE as int)
                    &&& (playing ==> {
                        let pre = frame_mix_pre(
                            *old(self),
                            recording,
                            synth,
                            drum,
                            m,
                            in0,
                            in1,
                            in2,
                            in3,
                        );
                        &&& chain_stepped(
                            old(self).chains@[0].effects@,
                            final(self).chains@[0].effects@,
                            in0,
                        )
                        &&& chain_stepped(
                            old(self).chains@[1].effects@,
                            final(self).chains@[1].effects@,
                            in1,
                        )
                        &&& chain_stepped(
                            old(self).chains@[2].effects@,
                            final(self).chains@[2].effects@,
                            in2,
                        )
                        &&& chain_stepped(
                            old(self).chains@[3].effects@,
                            final(self).chains@[3].effects@,
                            in3,
                        )
                        &&& tape_stepped(old(self).tape, final(self).tape, pre.0, pre.1)
                    })
                    &&& (!playing ==> final(self).chains@ == old(self).chains@ && final(self).tape
                        == old(self).tape)
                    &&& (frame.report is None ==> {
                        &&& final(self).master_l == meter_pushed(old(self).master_l, outp.0)
                        &&& final(self).master_r == meter_pushed(old(self).master_r, outp.1)
                        &&& final(self).track_meters@[0] == frame_track_meter(
                            *old(self),
                            playing,
                            0,
                            in0,
                        )
                        &&& final(self).track_meters@[1] == frame_track_meter(
                            *old(self),
                            playing,
                            1,
                            in1,
                        )
                        &&& final(self).track_meters@[2] == frame_track_meter(
                            *old(self),
                            playing,
                            2,
                            in2,
                        )
                        &&& final(self).track_meters@[3] == frame_track_meter(
                            *old(self),
                            playing,
                            3,
                            in3,
                        )
                    })
                    &&& (frame.report is Some ==> {
                        let rep = frame.report.unwrap();
                        let m0 = frame_track_meter(*old(self), playing, 0, in0);
                        let m1 = frame_track_meter(*old(self), playing, 1, in1);
                        let m2 = frame_track_meter(*old(self), playing, 2, in2);
                        let m3 = frame_track_meter(*old(self), playing, 3, in3);
                        let ml = meter_pushed(old(self).master_l, outp.0);
                        let mr = meter_pushed(old(self).master_r, outp.1);
                        &&& rep.position == final(self).transport.position
                        &&& rep.peaks@ == seq![m0.peak, m1.peak, m2.peak, m3.peak]
                        &&& rms_reported(m0, rep.levels@[0])
                        &&& rms_reported(m1, rep.levels@[1])
                        &&& rms_reported(m2, rep.levels@[2])
                        &&& rms_reported(m3, rep.levels@[3])
                        &&& rms_reported(ml, rep.master_l)
                        &&& rms_reported(mr, rep.master_r)
                        &&& forall|t: int|
                            0 <= t < TRACK_COUNT ==> (#[trigger] final(self).track_meters@[t]).count
                                == 0
                        &&& final(self).master_l.count == 0
                        &&& final(self).master_r.count == 0
                    })
                })
                &&& -FX_ONE <= frame.left <= FX_ONE
                &&& -FX_ONE <= frame.right <= FX_ONE
            }),
    {
        let playing = self.transport.is_playing() && self.transport.position < TRACK_SAMPLES;
        let seq_pos = if playing {
            self.transport.position
        } else {
            self.free_counter as usize
        };
        let (synth_sample, drum_sample, tick_msg) = self.gen_sources(seq_pos);
        self.free_counter = self.free_counter.wrapping_add(1);
        let fired = self.count_in_step();
        let metronome = self.metronome_sample();
        proof {
            assert(metronome as int == frame_metronome(*old(self)));
        }
        let step_msg = if fired {
            Some(0usize)
        } else {
            tick_msg
        };

        // Recording: write the selected sources to the armed track.
        let mut mic_consumed = false;
        let rec_track = self.transport.recording_track;
        if let Some(t) = rec_track {
            if self.transport.position < TRACK_SAMPLES {
                let mut rec: i64 = 0;
                if matches!(self.record_source, RecordSource::Mic | RecordSource::All) {
                    if let Some(m) = mic {
                        rec = rec + clamp_i64(m, -FX_ONE, FX_ONE);
                        mic_consumed = true;
                    }
                }
                if matches!(
                    self.record_source,
                    RecordSource::Synth | RecordSource::All | RecordSource::Internal,
                ) {
                    rec = rec + synth_sample;
                }
                if matches!(
                    self.record_source,
                    RecordSource::Drum | RecordSource::All | RecordSource::Internal,
                ) {
                    rec = rec + drum_sample;
                }
                crate::buffer::write_sample(bufs, t, self.transport.position, rec as i32);
            }
        }

        let pos = self.transport.position;
        let s0 = bufs.tracks[0].read(pos) as i64;
        let s1 = bufs.tracks[1].read(pos) as i64;
        let s2 = bufs.tracks[2].read(pos) as i64;
        let s3 = bufs.tracks[3].read(pos) as i64;
        proof {
            assert(s0 as int == frame_track_in(*old(self), *old(bufs), mic, 0));
            assert(s1 as int == frame_track_in(*old(self), *old(bufs), mic, 1));
            assert(s2 as int == frame_track_in(*old(self), *old(bufs), mic, 2));
            assert(s3 as int == frame_track_in(*old(self), *old(bufs), mic, 3));
        }
        let (left, right, report) = self.finish_frame(
            playing,
            [s0, s1, s2, s3],
            synth_sample,
            drum_sample,
            metronome,
        );
        FrameOut { left, right, step_msg, mic_consumed, report }
    }

    /// The playback half of a frame: each track's chain runs on its input,
    /// the mix picks up the monitor taps and metronome, the tape stage
    /// colors the pair, the track meters absorb the chain outputs and the
    /// playhead advances.
    #[verifier::rlimit(100)]
    fn play_path(
        &mut self,
        ins: [i64; 4],
        synth_sample: i64,
        drum_sample: i64,
        metronome: i64,
    ) -> (pre: (i64, i64))
        requires
            old(self).inv(),
            old(self).transport.spec_is_playing() && old(self).transport.position < TRACK_SAMPLES,
            forall|t: int| 0 <= t < 4 ==> -crate::effects::EFFECT_MAX <= #[trigger] ins@[t]
                <= crate::effects::EFFECT_MAX,
            -SYNTH_OUT_MAX <= synth_sample <= SYNTH_OUT_MAX,
            -3 * FX_ONE <= drum_sample <= 3 * FX_ONE,
            -FX_ONE <= metronome <= FX_ONE,
        ensures
            ({
                let recording = old(self).transport.recording_track is Some;
                let pre_spec = frame_mix_pre(
                    *old(self),
                    recording,
                    synth_sample as int,
                    drum_sample as int,
                    metronome as int,
                    ins@[0] as int,
                    ins@[1] as int,
                    ins@[2] as int,
                    ins@[3] as int,
                );
                &&& pre.0 == tape_out_l_spec(old(self).tape, pre_spec.0)
                &&& pre.1 == tape_out_r_spec(old(self).tape, pre_spec.1)
                &&& chain_stepped(
                    old(self).chains@[0].effects@,
                    final(self).chains@[0].effects@,
                    ins@[0] as int,
                )
                &&& chain_stepped(
                    old(self).chains@[1].effects@,
                    final(self).chains@[1].effects@,
                    ins@[1] as int,
                )
                &&& chain_stepped(
                    old(self).chains@[2].effects@,
                    final(self).chains@[2].effects@,
                    ins@[2] as int,
                )
                &&& chain_stepped(
                    old(self).chains@[3].effects@,
                    final(self).chains@[3].effects@,
                    ins@[3] as int,
                )
                &&& tape_stepped(old(self).tape, final(self).tape, pre_spec.0, pre_spec.1)
                &&& final(self).track_meters@[0] == meter_pushed(
                    old(self).track_meters@[0],
                    chain_out_of(*old(self), 0, ins@[0] as int),
                )
                &&& final(self).track_meters@[1] == meter_pushed(
                    old(self).track_meters@[1],
                    chain_out_of(*old(self), 1, ins@[1] as int),
                )
                &&& final(self).track_meters@[2] == meter_pushed(
                    old(self).track_meters@[2],
                    chain_out_of(*old(self), 2, ins@[2] as int),
                )
                &&& final(self).track_meters@[3] == meter_pushed(
                    old(self).track_meters@[3],
                    chain_out_of(*old(self), 3, ins@[3] as int),
                )
            }),
            -OUT_PRE_MAX <= pre.0 <= OUT_PRE_MAX,
            -OUT_PRE_MAX <= pre.1 <= OUT_PRE_MAX,
            final(self).transport.position == old(self).transport.next_position(),
            final(self).transport.max_position == (if final(self).transport.position
                > old(self).transport.max_position {
                final(self).transport.position as int
            } else {
                old(self).transport.max_position as int
            }),
            final(self).transport.state == old(self).transport.state,
            final(self).transport.recording_track == old(self).transport.recording_track,
            final(self).transport.loop_enabled == old(self).transport.loop_enabled,
            final(self).transport.loop_end == old(self).transport.loop_end,
            final(self).transport.inv(),
            final(self).tape.inv(),
            forall|i: int| 0 <= i < TRACK_COUNT ==> (#[trigger] final(self).chains@[i]).inv(),
            final(self).chains@.len() == TRACK_COUNT,
            forall|i: int| 0 <= i < TRACK_COUNT ==> (#[trigger] final(self).track_meters@[i]).inv(),
            final(self).track_meters@.len() == TRACK_COUNT,
            forall|i: int|
                0 <= i < TRACK_COUNT ==> (#[trigger] final(self).track_meters@[i]).count
                    == old(self).track_meters@[i].count + 1,
            final(self).clock == old(self).clock,
            final(self).synth.kind == old(self).synth.kind,
            final(self).synth.params == old(self).synth.params,
            final(self).synth.voices@ == old(self).synth.voices@,
            final(self).drums.voices@ == old(self).drums.voices@,
            final(self).drums.names == old(self).drums.names,
            final(self).patterns.patterns@ == old(self).patterns.patterns@,
            final(self).mixer == old(self).mixer,
            final(self).record_source == old(self).record_source,
            final(self).engine_index == old(self).engine_index,
            final(self).pending_record_track == old(self).pending_record_track,
            final(self).count_in_remaining == old(self).count_in_remaining,
            final(self).count_in_to_next_click == old(self).count_in_to_next_click,
            final(self).count_in_click_index == old(self).count_in_click_index,
            final(self).click_remaining == old(self).click_remaining,
            final(self).click_phase == old(self).click_phase,
            final(self).click_freq == old(self).click_freq,
            final(self).click_amp == old(self).click_amp,
            final(self).report_counter == old(self).report_counter,
            final(self).free_counter == old(self).free_counter,
            final(self).master_l == old(self).master_l,
            final(self).master_r == old(self).master_r,
    {
        let c0 = self.chains[0].process_sample(ins[0]);
        let c1 = self.chains[1].process_sample(ins[1]);
        let c2 = self.chains[2].process_sample(ins[2]);
        let c3 = self.chains[3].process_sample(ins[3]);
        self.track_meters[0].push(c0);
        self.track_meters[1].push(c1);
        self.track_meters[2].push(c2);
        self.track_meters[3].push(c3);
        let track_samples: [i64; 4] = [c0, c1, c2, c3];
        proof {
            assert(track_samples@ =~= seq![c0, c1, c2, c3]);
        }
        let (left, right) = self.mixer.mix(&track_samples);
        let recording = self.transport.recording_track.is_some();
        let monitor_synth = !recording || !(matches!(
            self.record_source,
            RecordSource::Synth | RecordSource::All | RecordSource::Internal,
        ));
        let monitor_drum = !recording || !(matches!(
            self.record_source,
            RecordSource::Drum | RecordSource::All | RecordSource::Internal,
        ));
        proof {
            lemma_fx_mul_contract(synth_sample as int, 32768);
            lemma_fx_mul_contract(drum_sample as int, 32768);
            crate::fx::lemma_mul_fits(synth_sample as int, 32768, SYNTH_OUT_MAX as int, 32768);
        }
        let mut l = left;
        let mut r = right;
        if monitor_synth {
            let tap = fx_mul(synth_sample, 32768);
            l = l + tap;
            r = r + tap;
        }
        if monitor_drum {
            let tap = fx_mul(drum_sample, 32768);
            l = l + tap;
            r = r + tap;
        }
        l = l + metronome;
        r = r + metronome;
        let colored = self.tape.process_stereo(l, r);
        self.transport.advance();
        colored
    }

    /// The frame tail: meters the pre-clip pair, hard-clips it into the
    /// output range, and drains a due telemetry report.
    #[verifier::rlimit(100)]
    fn meter_clip_report(&mut self, pre: (i64, i64)) -> (out: (i64, i64, Option<Report>))
        requires
            old(self).transport.inv(),
            old(self).mixer.inv(),
            old(self).clock.inv(),
            old(self).patterns.patterns@.len() == INSTRUMENT_COUNT,
            old(self).drums.inv(),
            old(self).synth.inv(),
            old(self).engine_index < ENGINE_COUNT,
            old(self).chains@.len() == TRACK_COUNT,
            forall|i: int| 0 <= i < TRACK_COUNT ==> (#[trigger] old(self).chains@[i]).inv(),
            old(self).tape.inv(),
            old(self).click_remaining <= CLICK_LEN,
            0 <= old(self).click_phase < FX_ONE,
            0 <= old(self).click_freq <= 131_072_000,
            0 <= old(self).click_amp <= FX_ONE,
            old(self).count_in_to_next_click <= 66_150,
            old(self).count_in_remaining <= 4 * 66_150,
            old(self).track_meters@.len() == TRACK_COUNT,
            forall|i: int| 0 <= i < TRACK_COUNT ==> (#[trigger] old(self).track_meters@[i]).inv(),
            forall|i: int|
                0 <= i < TRACK_COUNT ==> (#[trigger] old(self).track_meters@[i]).count <= old(self).report_counter + 1,
            old(self).master_l.inv(),
            old(self).master_r.inv(),
            old(self).master_l.count <= old(self).report_counter,
            old(self).master_r.count <= old(self).report_counter,
            old(self).report_counter < REPORT_INTERVAL,
            -OUT_PRE_MAX <= pre.0 <= OUT_PRE_MAX,
            -OUT_PRE_MAX <= pre.1 <= OUT_PRE_MAX,
        ensures
            final(self).inv(),
            out.0 == clamp_spec(pre.0 as int, -FX_ONE as int, FX_ONE as int),
            out.1 == clamp_spec(pre.1 as int, -FX_ONE as int, FX_ONE as int),
            (out.2 is Some) == (old(self).report_counter + 1 == REPORT_INTERVAL),
            final(self).report_counter == (if old(self).report_counter + 1 == REPORT_INTERVAL {
                0int
            } else {
                old(self).report_counter + 1
            }),
            out.2 is None ==> {
                &&& final(self).master_l == meter_pushed(old(self).master_l, pre.0 as int)
                &&& final(self).master_r == meter_pushed(old(self).master_r, pre.1 as int)
                &&& final(self).track_meters@ == old(self).track_meters@
            },
            out.2 is Some ==> out.2.unwrap().position == old(self).transport.position,
            out.2 is Some ==> out.2.unwrap().peaks@[0] == old(self).track_meters@[0].peak,
            out.2 is Some ==> out.2.unwrap().peaks@[1] == old(self).track_meters@[1].peak,
            out.2 is Some ==> out.2.unwrap().peaks@[2] == old(self).track_meters@[2].peak,
            out.2 is Some ==> out.2.unwrap().peaks@[3] == old(self).track_meters@[3].peak,
            out.2 is Some ==> rms_reported(old(self).track_meters@[0], out.2.unwrap().levels@[0]),
            out.2 is Some ==> rms_reported(old(self).track_meters@[1], out.2.unwrap().levels@[1]),
            out.2 is Some ==> rms_reported(old(self).track_meters@[2], out.2.unwrap().levels@[2]),
            out.2 is Some ==> rms_reported(old(self).track_meters@[3], out.2.unwrap().levels@[3]),
            out.2 is Some ==> rms_reported(
                meter_pushed(old(self).master_l, pre.0 as int),
                out.2.unwrap().master_l,
            ),
            out.2 is Some ==> rms_reported(
                meter_pushed(old(self).master_r, pre.1 as int),
                out.2.unwrap().master_r,
            ),
            out.2 is Some ==> forall|t: int|
                0 <= t < TRACK_COUNT ==> (#[trigger] final(self).track_meters@[t]).count == 0,
            out.2 is Some ==> final(self).master_l.count == 0 && final(self).master_r.count == 0,
            final(self).transport == old(self).transport,
            final(self).chains@ == old(self).chains@,
            final(self).tape == old(self).tape,
            final(self).clock == old(self).clock,
            final(self).synth.kind == old(self).synth.kind,
            final(self).synth.params == old(self).synth.params,
            final(self).synth.voices@ == old(self).synth.voices@,
            final(self).drums.voices@ == old(self).drums.voices@,
            final(self).drums.names == old(self).drums.names,
            final(self).patterns.patterns@ == old(self).patterns.patterns@,
            final(self).mixer == old(self).mixer,
            final(self).record_source == old(self).record_source,
            final(self).engine_index == old(self).engine_index,
            final(self).pending_record_track == old(self).pending_record_track,
            final(self).count_in_remaining == old(self).count_in_remaining,
            final(self).count_in_to_next_click == old(self).count_in_to_next_click,
            final(self).count_in_click_index == old(self).count_in_click_index,
            final(self).click_remaining == old(self).click_remaining,
            final(self).click_phase == old(self).click_phase,
            final(self).click_freq == old(self).click_freq,
            final(self).click_amp == old(self).click_amp,
            final(self).free_counter == old(self).free_counter,
    {
        self.master_l.push(pre.0);
        self.master_r.push(pre.1);
        let left = clamp_i64(pre.0, -FX_ONE, FX_ONE);
        let right = clamp_i64(pre.1, -FX_ONE, FX_ONE);
        let report: Option<Report> = if self.report_counter + 1 == REPORT_INTERVAL {
            self.report_counter = 0;
            Some(self.drain_report())
        } else {
            self.report_counter = self.report_counter + 1;
            None
        };
        (left, right, report)
    }

    /// The frame's output stage: while playing, every track runs through
    /// its chain, the mix picks up the live-monitor taps and the metronome,
    /// the tape stage colors the pair and the playhead advances; otherwise
    /// the halved synth-and-drum preview plays. The pair is metered
    /// pre-clip and hard-clipped, and a due telemetry report is drained.
    #[verifier::rlimit(100)]
    #[verifier::spinoff_prover]
    fn finish_frame(
        &mut self,
        playing: bool,
        ins: [i64; 4],
        synth_sample: i64,
        drum_sample: i64,
        metronome: i64,
    ) -> (out: (i64, i64, Option<Report>))
        requires
            old(self).inv(),
            playing ==> old(self).transport.spec_is_playing() && old(self).transport.position
                < TRACK_SAMPLES,
            forall|t: int| 0 <= t < 4 ==> -crate::effects::EFFECT_MAX <= #[trigger] ins@[t]
                <= crate::effects::EFFECT_MAX,
            -SYNTH_OUT_MAX <= synth_sample <= SYNTH_OUT_MAX,
            -3 * FX_ONE <= drum_sample <= 3 * FX_ONE,
            -FX_ONE <= metronome <= FX_ONE,
        ensures
            final(self).inv(),
            ({
                let recording = old(self).transport.recording_track is Some;
                let outp = frame_out_pre(
                    *old(self),
                    playing,
                    recording,
                    synth_sample as int,
                    drum_sample as int,
                    metronome as int,
                    ins@[0] as int,
                    ins@[1] as int,
                    ins@[2] as int,
                    ins@[3] as int,
                );
                &&& out.0 == clamp_spec(outp.0, -FX_ONE as int, FX_ONE as int)
                &&& out.1 == clamp_spec(outp.1, -FX_ONE as int, FX_ONE as int)
                &&& (playing ==> {
                    let pre = frame_mix_pre(
                        *old(self),
                        recording,
                        synth_sample as int,
                        drum_sample as int,
                        metronome as int,
                        ins@[0] as int,
                        ins@[1] as int,
                        ins@[2] as int,
                        ins@[3] as int,
                    );
                    &&& chain_stepped(
                        old(self).chains@[0].effects@,
                        final(self).chains@[0].effects@,
                        ins@[0] as int,
                    )
                    &&& chain_stepped(
                        old(self).chains@[1].effects@,
                        final(self).chains@[1].effects@,
                        ins@[1] as int,
                    )
                    &&& chain_stepped(
                        old(self).chains@[2].effects@,
                        final(self).chains@[2].effects@,
                        ins@[2] as int,
                    )
                    &&& chain_stepped(
                        old(self).chains@[3].effects@,
                        final(self).chains@[3].effects@,
                        ins@[3] as int,
                    )
                    &&& tape_stepped(old(self).tape, final(self).tape, pre.0, pre.1)
                    &&& final(self).transport.position == old(self).transport.next_position()
                    &&& final(self).transport.max_position == (if final(self).transport.position
                        > old(self).transport.max_position {
                        final(self).transport.position as int
                    } else {
                        old(self).transport.max_position as int
                    })
                })
                &&& (!playing ==> final(self).chains@ == old(self).chains@ && final(self).tape
                    == old(self).tape && final(self).transport == old(self).transport)
                &&& final(self).transport.state == old(self).transport.state
                &&& final(self).transport.recording_track == old(self).transport.recording_track
                &&& final(self).transport.loop_enabled == old(self).transport.loop_enabled
                &&& final(self).transport.loop_end == old(self).transport.loop_end
                &&& (out.2 is Some) == (old(self).report_counter + 1 == REPORT_INTERVAL)
                &&& final(self).report_counter == (if old(self).report_counter + 1
                    == REPORT_INTERVAL {
                    0int
                } else {
                    old(self).report_counter + 1
                })
                &&& (out.2 is None ==> {
                    &&& final(self).master_l == meter_pushed(old(self).master_l, outp.0)
                    &&& final(self).master_r == meter_pushed(old(self).master_r, outp.1)
                    &&& final(self).track_meters@[0] == frame_track_meter(
                        *old(self),
                        playing,
                        0,
                        ins@[0] as int,
                    )
                    &&& final(self).track_meters@[1] == frame_track_meter(
                        *old(self),
                        playing,
                        1,
                        ins@[1] as int,
                    )
                    &&& final(self).track_meters@[2] == frame_track_meter(
                        *old(self),
                        playing,
                        2,
                        ins@[2] as int,
                    )
                    &&& final(self).track_meters@[3] == frame_track_meter(
                        *old(self),
                        playing,
                        3,
                        ins@[3] as int,
                    )
                })
                &&& (out.2 is Some ==> {
                    let rep = out.2.unwrap();
                    let m0 = frame_track_meter(*old(self), playing, 0, ins@[0] as int);
                    let m1 = frame_track_meter(*old(self), playing, 1, ins@[1] as int);
                    let m2 = frame_track_meter(*old(self), playing, 2, ins@[2] as int);
                    let m3 = frame_track_meter(*old(self), playing, 3, ins@[3] as int);
                    let ml = meter_pushed(old(self).master_l, outp.0);
                    let mr = meter_pushed(old(self).master_r, outp.1);
                    &&& rep.position == final(self).transport.position
                    &&& rep.peaks@[0] == m0.peak
                    &&& rep.peaks@[1] == m1.peak
                    &&& rep.peaks@[2] == m2.peak
                    &&& rep.peaks@[3] == m3.peak
                    &&& rms_reported(m0, rep.levels@[0])
                    &&& rms_reported(m1, rep.levels@[1])
                    &&& rms_reported(m2, rep.levels@[2])
                    &&& rms_reported(m3, rep.levels@[3])
                    &&& rms_reported(ml, rep.master_l)
                    &&& rms_reported(mr, rep.master_r)
                    &&& forall|t: int|
                        0 <= t < TRACK_COUNT ==> (#[trigger] final(self).track_meters@[t]).count
                            == 0
                    &&& final(self).master_l.count == 0
                    &&& final(self).master_r.count == 0
                })
            }),
            final(self).clock == old(self).clock,
            final(self).synth.kind == old(self).synth.kind,
            final(self).synth.params == old(self).synth.params,
            final(self).synth.voices@ == old(self).synth.voices@,
            final(self).drums.voices@ == old(self).drums.voices@,
            final(self).drums.names == old(self).drums.names,
            final(self).patterns.patterns@ == old(self).patterns.patterns@,
            final(self).mixer == old(self).mixer,
            final(self).record_source == old(self).record_source,
            final(self).engine_index == old(self).engine_index,
            final(self).pending_record_track == old(self).pending_record_track,
            final(self).count_in_remaining == old(self).count_in_remaining,
            final(self).count_in_to_next_click == old(self).count_in_to_next_click,
            final(self).count_in_click_index == old(self).count_in_click_index,
            final(self).click_remaining == old(self).click_remaining,
            final(self).click_phase == old(self).click_phase,
            final(self).click_freq == old(self).click_freq,
            final(self).click_amp == old(self).click_amp,
            final(self).free_counter == old(self).free_counter,
    {
        let pre = if playing {
            self.play_path(ins, synth_sample, drum_sample, metronome)
        } else {
            proof {
                lemma_fx_mul_contract(synth_sample as int + drum_sample as int, 32768);
                crate::fx::lemma_mul_fits(
                    synth_sample as int + drum_sample as int,
                    32768,
                    SYNTH_OUT_MAX + 3 * FX_ONE as int,
                    32768,
                );
            }
            let base = fx_mul(synth_sample + drum_sample, 32768) + metronome;
            (base, base)
        };
        self.meter_clip_report(pre)
    }

    /// Drains the meters into one report: per track the RMS of what was
    /// pushed since the last report and the current peak, which then decays
    /// by the report-rate factor; the master pair's RMS likewise. The
    /// accumulators reset.
    fn drain_report(&mut self) -> (r: Report)
        requires
            old(self).track_meters@.len() == TRACK_COUNT,
            forall|i: int| 0 <= i < TRACK_COUNT ==> (#[trigger] old(self).track_meters@[i]).inv(),
            old(self).master_l.inv(),
            old(self).master_r.inv(),
            old(self).transport.inv(),
        ensures
            final(self).track_meters@.len() == TRACK_COUNT,
            forall|i: int| 0 <= i < TRACK_COUNT ==> (#[trigger] final(self).track_meters@[i]).inv(),
            forall|i: int|
                0 <= i < TRACK_COUNT ==> (#[trigger] final(self).track_meters@[i]).count == 0,
            forall|i: int|
                0 <= i < TRACK_COUNT ==> rms_reported(
                    old(self).track_meters@[i],
                    #[trigger] r.levels@[i],
                ),
            forall|i: int| 0 <= i < TRACK_COUNT ==> #[trigger] r.peaks@[i] == old(self).track_meters@[i].peak,
            forall|i: int|
                0 <= i < TRACK_COUNT ==> (#[trigger] final(self).track_meters@[i]).peak == (old(self).track_meters@[i].peak as int) * 995 / 1000,
            old(self).master_l.count == 0 ==> r.master_l == 0,
            old(self).master_l.count > 0 ==> (r.master_l as int) * (r.master_l as int) <= old(self).master_l.sum_sq as int / old(self).master_l.count as int && (old(self).master_l.sum_sq as int / old(self).master_l.count as int) < (r.master_l + 1) * (r.master_l + 1),
            old(self).master_r.count == 0 ==> r.master_r == 0,
            old(self).master_r.count > 0 ==> (r.master_r as int) * (r.master_r as int) <= old(self).master_r.sum_sq as int / old(self).master_r.count as int && (old(self).master_r.sum_sq as int / old(self).master_r.count as int) < (r.master_r + 1) * (r.master_r + 1),
            final(self).master_l.peak == old(self).master_l.peak,
            final(self).master_r.peak == old(self).master_r.peak,
            final(self).master_l.inv(),
            final(self).master_r.inv(),
            final(self).master_l.count == 0,
            final(self).master_r.count == 0,
            r.position == old(self).transport.position,
            final(self).transport == old(self).transport,
            final(self).mixer == old(self).mixer,
            final(self).clock == old(self).clock,
            final(self).synth.voices@ == old(self).synth.voices@,
            final(self).synth.kind == old(self).synth.kind,
            final(self).synth.params == old(self).synth.params,
            final(self).drums.voices@ == old(self).drums.voices@,
            final(self).drums.names == old(self).drums.names,
            final(self).patterns.patterns@ == old(self).patterns.patterns@,
            final(self).chains@ == old(self).chains@,
            final(self).tape == old(self).tape,
            final(self).record_source == old(self).record_source,
            final(self).engine_index == old(self).engine_index,
            final(self).pending_record_track == old(self).pending_record_track,
            final(self).count_in_remaining == old(self).count_in_remaining,
            final(self).count_in_to_next_click == old(self).count_in_to_next_click,
            final(self).count_in_click_index == old(self).count_in_click_index,
            final(self).click_remaining == old(self).click_remaining,
            final(self).click_phase == old(self).click_phase,
            final(self).click_freq == old(self).click_freq,
            final(self).click_amp == old(self).click_amp,
            final(self).report_counter == old(self).report_counter,
            final(self).free_counter == old(self).free_counter,
    {
        let l0 = self.track_meters[0].take_rms();
        let l1 = self.track_meters[1].take_rms();
        let l2 = self.track_meters[2].take_rms();
        let l3 = self.track_meters[3].take_rms();
        let p0 = self.track_meters[0].take_peak();
        let p1 = self.track_meters[1].take_peak();
        let p2 = self.track_meters[2].take_peak();
        let p3 = self.track_meters[3].take_peak();
        let ml = self.master_l.take_rms();
        let mr = self.master_r.take_rms();
        Report {
            position: self.transport.position,
            levels: [l0, l1, l2, l3],
            peaks: [p0, p1, p2, p3],
            master_l: ml,
            master_r: mr,
        }
    }
}

impl EngineCore {
    /// One frame without the track buffers (the lock was contended): track
    /// reads degrade to silence and the recording write is skipped, but
    /// monitoring, sequencing, metering and the transport all proceed, so
    /// audio never stalls.
    #[verifier::rlimit(100)]
    pub fn process_frame_unlocked(&mut self, mic: Option<i64>) -> (frame: FrameOut)
        requires
            old(self).inv(),
            old(self).tracks_ok(),
        ensures
            final(self).inv(),
            final(self).tracks_ok(),
            ({
                let fired = old(self).pending_record_track is Some && old(self).count_in_remaining == 0;
                let tmid = transport_mid(*old(self));
                let rec_active = tmid.recording_track is Some && tmid.position < TRACK_SAMPLES;
                let playing = old(self).transport.spec_is_playing() && old(self).transport.position
                    < TRACK_SAMPLES;
                let seq_pos = frame_seq_pos(*old(self));
                &&& frame.step_msg == (if fired {
                    Some(0usize)
                } else if reports_new_step(old(self).clock.last_step, old(self).clock.bpm, seq_pos) {
                    Some((step_of(old(self).clock.bpm, seq_pos) as usize))
                } else {
                    None::<usize>
                })
                &&& frame.mic_consumed == (rec_active && old(self).record_source.takes_mic()
                    && mic is Some)
                &&& final(self).transport.state == tmid.state
                &&& final(self).transport.recording_track == tmid.recording_track
                &&& final(self).transport.position == (if playing {
                    tmid.next_position()
                } else {
                    tmid.position as int
                })
                &&& final(self).transport.loop_enabled == old(self).transport.loop_enabled
                &&& final(self).transport.loop_end == old(self).transport.loop_end
                &&& (frame.report is Some) == (old(self).report_counter + 1 == REPORT_INTERVAL)
                &&& final(self).report_counter == (if old(self).report_counter + 1
                    == REPORT_INTERVAL {
                    0int
                } else {
                    old(self).report_counter + 1
                })
                &&& final(self).record_source == old(self).record_source
                &&& final(self).mixer == old(self).mixer
                &&& final(self).engine_index == old(self).engine_index
                &&& final(self).patterns.patterns@ == old(self).patterns.patterns@
                &&& synth_stepped(old(self).synth, final(self).synth)
                &&& forall|i: int|
                    0 <= i < INSTRUMENT_COUNT ==> #[trigger] final(self).drums.voices@[i]
                        == voice_step(
                        trig_applied(old(self).drums.voices@[i], fires(*old(self), seq_pos, i)),
                    )
                &&& ({
                    let recording = tmid.recording_track is Some;
                    let synth = frame_synth_out(*old(self));
                    let drum = frame_drum_out(*old(self), seq_pos);
                    let m = frame_metronome(*old(self));
                    let in0 = 0int;
                    let in1 = 0int;
                    let in2 = 0int;
                    let in3 = 0int;
                    let outp = frame_out_pre(
                        *old(self),
                        playing,
                        recording,
                        synth,
                        drum,
                        m,
                        in0,
                        in1,
                        in2,
                        in3,
                    );
                    &&& frame.left == clamp_spec(outp.0, -FX_ONE as int, FX_ONE as int)
                    &&& frame.right == clamp_spec(outp.1, -FX_ONE as int, FX_ONE as int)
                    &&& (playing ==> {
                        let pre = frame_mix_pre(
                            *old(self),
                            recording,
                            synth,
                            drum,
                            m,
                            in0,
                            in1,
                            in2,
                            in3,
                        );
                        &&& chain_stepped(
                            old(self).chains@[0].effects@,
                            final(self).chains@[0].effects@,
                            in0,
                        )
                        &&& chain_stepped(
                            old(self).chains@[1].effects@,
                            final(self).chains@[1].effects@,
                            in1,
                        )
                        &&& chain_stepped(
                            old(self).chains@[2].effects@,
                            final(self).chains@[2].effects@,
                            in2,
                        )
                        &&& chain_stepped(
                            old(self).chains@[3].effects@,
                            final(self).chains@[3].effects@,
                            in3,
                        )
                        &&& tape_stepped(old(self).tape, final(self).tape, pre.0, pre.1)
                    })
                    &&& (!playing ==> final(self).chains@ == old(self).chains@ && final(self).tape
                        == old(self).tape)
                    &&& (frame.report is None ==> {
                        &&& final(self).master_l == meter_pushed(old(self).master_l, outp.0)
                        &&& final(self).master_r == meter_pushed(old(self).master_r, outp.1)
                        &&& final(self).track_meters@[0] == frame_track_meter(
                            *old(self),
                            playing,
                            0,
                            in0,
                        )
                        &&& final(self).track_meters@[1] == frame_track_meter(
                            *old(self),
                            playing,
                            1,
                            in1,
                        )
                        &&& final(self).track_meters@[2] == frame_track_meter(
                            *old(self),
                            playing,
                            2,
                            in2,
                        )
                        &&& final(self).track_meters@[3] == frame_track_meter(
                            *old(self),
                            playing,
                            3,
                            in3,
                        )
                    })
                    &&& (frame.report is Some ==> {
                        let rep = frame.report.unwrap();
                        let m0 = frame_track_meter(*old(self), playing, 0, in0);
                        let m1 = frame_track_meter(*old(self), playing, 1, in1);
                        let m2 = frame_track_meter(*old(self), playing, 2, in2);
                        let m3 = frame_track_meter(*old(self), playing, 3, in3);
                        let ml = meter_pushed(old(self).master_l, outp.0);
                        let mr = meter_pushed(old(self).master_r, outp.1);
                        &&& rep.position == final(self).transport.position
                        &&& rep.peaks@ == seq![m0.peak, m1.peak, m2.peak, m3.peak]
                        &&& rms_reported(m0, rep.levels@[0])
                        &&& rms_reported(m1, rep.levels@[1])
                        &&& rms_reported(m2, rep.levels@[2])
                        &&& rms_reported(m3, rep.levels@[3])
                        &&& rms_reported(ml, rep.master_l)
                        &&& rms_reported(mr, rep.master_r)
                        &&& forall|t: int|
                            0 <= t < TRACK_COUNT ==> (#[trigger] final(self).track_meters@[t]).count
                                == 0
                        &&& final(self).master_l.count == 0
                        &&& final(self).master_r.count == 0
                    })
                })
                &&& -FX_ONE <= frame.left <= FX_ONE
                &&& -FX_ONE <= frame.right <= FX_ONE
            }),
    {
        let playing = self.transport.is_playing() && self.transport.position < TRACK_SAMPLES;
        let seq_pos = if playing {
            self.transport.position
        } else {
            self.free_counter as usize
        };
        let (synth_sample, drum_sample, tick_msg) = self.gen_sources(seq_pos);
        self.free_counter = self.free_counter.wrapping_add(1);
        let fired = self.count_in_step();
        let metronome = self.metronome_sample();
        proof {
            assert(metronome as int == frame_metronome(*old(self)));
        }
        let step_msg = if fired {
            Some(0usize)
        } else {
            tick_msg
        };

        // The lock is contended: the mic sample is still drained while
        // recording, but nothing can be written this frame.
        let mut mic_consumed = false;
        if self.transport.recording_track.is_some() && self.transport.position < TRACK_SAMPLES {
            if matches!(self.record_source, RecordSource::Mic | RecordSource::All) {
                if mic.is_some() {
                    mic_consumed = true;
                }
            }
        }

        let (left, right, report) = self.finish_frame(
            playing,
            [0, 0, 0, 0],
            synth_sample,
            drum_sample,
            metronome,
        );
        FrameOut { left, right, step_msg, mic_consumed, report }
    }

    /// Applies one command. Commands are idempotent state setters, so a
    /// dropped command only delays convergence. Returns the step display to
    /// report, if the command forces one. The buffers, when the lock could
    /// be taken, let looping commands derive a loop region from what has
    /// been recorded.
    pub fn apply_command(&mut self, cmd: AudioCmd, bufs: Option<&SharedBuffers>) -> (msg: Option<
        usize,
    >)
        requires
            old(self).inv(),
            old(self).tracks_ok(),
            bufs is Some ==> bufs.unwrap().inv(),
        ensures
            final(self).inv(),
            final(self).tracks_ok(),
            match cmd {
                AudioCmd::Play => {
                    &&& final(self).transport.state == (if old(self).transport.state
                        == TransportState::Recording {
                        TransportState::Recording
                    } else {
                        TransportState::Playing
                    })
                    &&& final(self).transport.position == old(self).transport.position
                    &&& final(self).transport.loop_end == (if old(self).transport.loop_enabled
                        && bufs is Some {
                        detected_loop_spec(*bufs.unwrap())
                    } else {
                        old(self).transport.loop_end
                    })
                    &&& final(self).mixer == old(self).mixer
                    &&& msg is None
                },
                AudioCmd::Pause => {
                    &&& final(self).transport.state == (if old(self).transport.state
                        == TransportState::Playing {
                        TransportState::Paused
                    } else if old(self).transport.state == TransportState::Paused {
                        TransportState::Playing
                    } else {
                        old(self).transport.state
                    })
                    &&& final(self).transport.position == old(self).transport.position
                    &&& msg is None
                },
                AudioCmd::Stop => {
                    &&& final(self).transport.state == TransportState::Stopped
                    &&& final(self).transport.position == 0
                    &&& final(self).transport.recording_track is None
                    &&& final(self).pending_record_track is None
                    &&& final(self).clock.last_step is None
                    &&& msg == Some(0usize)
                },
                AudioCmd::Record(track) => {
                    &&& (track < TRACK_COUNT ==> {
                        &&& final(self).pending_record_track == Some(track)
                        &&& final(self).count_in_remaining == 4 * samples_per_beat(
                            old(self).clock.bpm,
                        )
                        &&& final(self).count_in_to_next_click == 0
                        &&& final(self).transport.state == (if old(self).transport.state
                            == TransportState::Recording {
                            TransportState::Recording
                        } else {
                            TransportState::Playing
                        })
                    })
                    &&& (track >= TRACK_COUNT ==> *final(self) == *old(self))
                    &&& msg is None
                },
                AudioCmd::StopRecord => {
                    &&& final(self).transport.state == TransportState::Playing
                    &&& final(self).transport.recording_track is None
                    &&& final(self).pending_record_track is None
                    &&& msg is None
                },
                AudioCmd::Seek(pos) => {
                    &&& final(self).transport.position == (if pos <= old(self).transport.effective_max() - 1 {
                        pos as int
                    } else {
                        old(self).transport.effective_max() - 1
                    })
                    &&& final(self).transport.state == old(self).transport.state
                    &&& msg is None
                },
                AudioCmd::SetLoopEnabled(enabled) => {
                    &&& final(self).transport.loop_enabled == enabled
                    &&& final(self).transport.loop_end == (if !enabled {
                        None::<usize>
                    } else if bufs is Some {
                        detected_loop_spec(*bufs.unwrap())
                    } else {
                        old(self).transport.loop_end
                    })
                    &&& msg is None
                },
                AudioCmd::SetLevel(track, v) => {
                    &&& (track < TRACK_COUNT ==> final(self).mixer.levels@ == old(self).mixer.levels@.update(
                        track as int,
                        clamp_spec(v as int, 0, FX_ONE as int) as i64,
                    ))
                    &&& (track >= TRACK_COUNT ==> final(self).mixer == old(self).mixer)
                    &&& final(self).mixer.pans == old(self).mixer.pans
                    &&& final(self).mixer.mutes == old(self).mixer.mutes
                    &&& final(self).mixer.solos == old(self).mixer.solos
                    &&& final(self).transport == old(self).transport
                    &&& msg is None
                },
                AudioCmd::SetPan(track, v) => {
                    &&& (track < TRACK_COUNT ==> final(self).mixer.pans@ == old(self).mixer.pans@.update(
                        track as int,
                        clamp_spec(v as int, -FX_ONE as int, FX_ONE as int) as i64,
                    ))
                    &&& (track >= TRACK_COUNT ==> final(self).mixer == old(self).mixer)
                    &&& final(self).mixer.levels == old(self).mixer.levels
                    &&& final(self).transport == old(self).transport
                    &&& msg is None
                },
                AudioCmd::SetMute(track, v) => {
                    &&& (track < TRACK_COUNT ==> final(self).mixer.mutes@ == old(self).mixer.mutes@.update(track as int, v))
                    &&& (track >= TRACK_COUNT ==> final(self).mixer == old(self).mixer)
                    &&& msg is None
                },
                AudioCmd::SetSolo(track, v) => {
                    &&& (track < TRACK_COUNT ==> final(self).mixer.solos@ == old(self).mixer.solos@.update(track as int, v))
                    &&& (track >= TRACK_COUNT ==> final(self).mixer == old(self).mixer)
                    &&& msg is None
                },
                AudioCmd::NoteOn(note, _vel) => {
                    &&& final(self).synth.kind == old(self).synth.kind
                    &&& final(self).synth.params == old(self).synth.params
                    &&& final(self).synth.voices@.len() == MAX_VOICES
                    &&& exists|idx: int|
                        0 <= idx < MAX_VOICES && crate::synth::fresh_voice_scalars(
                            old(self).synth.kind,
                            note,
                            #[trigger] final(self).synth.voices@[idx],
                        ) && (forall|j: int|
                            0 <= j < MAX_VOICES && j != idx ==> #[trigger] final(self).synth.voices@[j]
                                == old(self).synth.voices@[j])
                    &&& msg is None
                },
                AudioCmd::NoteOff(note) => {
                    &&& final(self).synth.kind == old(self).synth.kind
                    &&& final(self).synth.params == old(self).synth.params
                    &&& forall|i: int|
                        0 <= i < MAX_VOICES ==> (#[trigger] final(self).synth.voices@[i]).releasing
                            == (old(self).synth.voices@[i].releasing || (
                        old(self).synth.voices@[i].active && old(self).synth.voices@[i].note
                            == note))
                    &&& msg is None
                },
                AudioCmd::SelectEngine(idx) => {
                    &&& final(self).engine_index == (if idx < ENGINE_COUNT {
                        idx as int
                    } else {
                        0int
                    })
                    &&& final(self).synth.kind == (if idx == 1 {
                        crate::synth::EngineKind::Saw
                    } else if idx == 2 {
                        crate::synth::EngineKind::Fm
                    } else if idx == 3 {
                        crate::synth::EngineKind::Plucked
                    } else if idx == 4 {
                        crate::synth::EngineKind::Noise
                    } else {
                        crate::synth::EngineKind::Sine
                    })
                    &&& msg is None
                },
                AudioCmd::SetParam(idx, v) => {
                    &&& final(self).synth.kind == old(self).synth.kind
                    &&& final(self).synth.voices@ == old(self).synth.voices@
                    &&& (idx < 4 && !(old(self).synth.kind == crate::synth::EngineKind::Sine && idx
                        <= 1) ==> final(self).synth.params@ == old(self).synth.params@.update(
                        idx as int,
                        SynthEngine::set_param_value_spec(
                            old(self).synth.kind,
                            idx as int,
                            clamp_spec(v as int, -0x1_0000_0000, 0x1_0000_0000),
                        ) as i64,
                    ))
                    &&& msg is None
                },
                AudioCmd::ToggleStep(inst, step) => {
                    &&& (inst < INSTRUMENT_COUNT && step < STEP_COUNT ==> final(self).patterns.patterns@[inst as int].steps@ == old(self).patterns.patterns@[inst as int].steps@.update(
                        step as int,
                        !old(self).patterns.patterns@[inst as int].steps@[step as int],
                    ))
                    &&& (inst >= INSTRUMENT_COUNT ==> final(self).patterns.patterns@ == old(self).patterns.patterns@)
                    &&& msg is None
                },
                AudioCmd::SetBpm(bpm) => {
                    &&& final(self).clock.bpm == clamp_spec(bpm as int, 40, 300)
                    &&& final(self).clock.last_step == old(self).clock.last_step
                    &&& msg is None
                },
                AudioCmd::ToggleTapeSim => {
                    &&& final(self).tape.enabled == !old(self).tape.enabled
                    &&& msg is None
                },
                AudioCmd::SetTapeSpeed(_speed) => {
                    &&& *final(self) == *old(self)
                    &&& msg is None
                },
                AudioCmd::ToggleEffect(track, slot) => {
                    &&& (track >= TRACK_COUNT ==> final(self).chains@ == old(self).chains@)
                    &&& (track < TRACK_COUNT ==> {
                        &&& forall|i: int|
                            0 <= i < TRACK_COUNT && i != track ==> #[trigger] final(self).chains@[i]
                                == old(self).chains@[i]
                        &&& final(self).chains@[track as int].effects@.len() == old(self).chains@[track as int].effects@.len()
                        &&& (slot < old(self).chains@[track as int].effects@.len() ==> final(self).chains@[track as int].effects@[slot as int].bypassed == !old(self).chains@[track as int].effects@[slot as int].bypassed)
                        &&& forall|j: int|
                            0 <= j < old(self).chains@[track as int].effects@.len() && j != slot
                                ==> #[trigger] final(self).chains@[track as int].effects@[j]
                                == old(self).chains@[track as int].effects@[j]
                    })
                    &&& msg is None
                },
                AudioCmd::SetEffectParam(track, slot, param, v) => {
                    &&& (track >= TRACK_COUNT ==> final(self).chains@ == old(self).chains@)
                    &&& (track < TRACK_COUNT ==> {
                        &&& forall|i: int|
                            0 <= i < TRACK_COUNT && i != track ==> #[trigger] final(self).chains@[i]
                                == old(self).chains@[i]
                        &&& final(self).chains@[track as int].effects@.len() == old(self).chains@[track as int].effects@.len()
                        &&& forall|j: int|
                            0 <= j < old(self).chains@[track as int].effects@.len() && j != slot
                                ==> #[trigger] final(self).chains@[track as int].effects@[j]
                                == old(self).chains@[track as int].effects@[j]
                        &&& (slot < old(self).chains@[track as int].effects@.len()
                            ==> crate::effects::param_applied(
                            old(self).chains@[track as int].effects@[slot as int],
                            final(self).chains@[track as int].effects@[slot as int],
                            param as int,
                            clamp_spec(v as int, -0x1_0000_0000, 0x1_0000_0000),
                        ))
                    })
                    &&& msg is None
                },
                AudioCmd::SetRecordSource(src) => {
                    &&& final(self).record_source == src
                    &&& msg is None
                },
            },
    {
        match cmd {
            AudioCmd::Play => {
                if self.transport.loop_enabled() {
                    if let Some(b) = bufs {
                        let le = detect_loop_end(b, None);
                        proof {
                            crate::buffer::lemma_max_len_bounds(*b, None, TRACK_COUNT as int);
                        }
                        self.transport.set_loop_end(le);
                    }
                }
                self.transport.play();
                None
            }
            AudioCmd::Pause => {
                self.transport.pause();
                None
            }
            AudioCmd::Stop => {
                self.pending_record_track = None;
                self.count_in_remaining = 0;
                self.count_in_to_next_click = 0;
                self.click_remaining = 0;
                self.transport.stop();
                self.clock.reset();
                Some(0)
            }
            AudioCmd::Record(track) => {
                if track < TRACK_COUNT {
                    self.pending_record_track = Some(track);
                    let bpm = self.clock.bpm();
                    proof {
                        vstd::arithmetic::div_mod::lemma_div_pos_is_pos(2_646_000, bpm as int);
                        vstd::arithmetic::div_mod::lemma_div_is_ordered_by_denominator(
                            2_646_000,
                            40,
                            bpm as int,
                        );
                    }
                    let spb = 2_646_000 / (bpm as usize);
                    self.count_in_remaining = spb * COUNT_IN_BEATS;
                    self.count_in_to_next_click = 0;
                    self.count_in_click_index = 0;
                    self.click_remaining = 0;
                    if self.transport.loop_enabled() {
                        if let Some(b) = bufs {
                            let le = detect_loop_end(b, Some(track));
                            self.transport.set_loop_end(le);
                        }
                    }
                    self.transport.play();
                }
                None
            }
            AudioCmd::StopRecord => {
                self.pending_record_track = None;
                self.count_in_remaining = 0;
                self.count_in_to_next_click = 0;
                self.click_remaining = 0;
                if self.transport.loop_enabled() && self.transport.loop_end().is_none() {
                    let pos = self.transport.position;
                    self.transport.set_loop_end(Some(pos));
                }
                self.transport.stop_record();
                None
            }
            AudioCmd::Seek(pos) => {
                self.transport.seek(pos);
                None
            }
            AudioCmd::SetLoopEnabled(enabled) => {
                self.transport.set_loop_enabled(enabled);
                if enabled {
                    if let Some(b) = bufs {
                        let le = detect_loop_end(b, None);
                        proof {
                            crate::buffer::lemma_max_len_bounds(*b, None, TRACK_COUNT as int);
                        }
                        self.transport.set_loop_end(le);
                    }
                }
                None
            }
            AudioCmd::SetLevel(track, v) => {
                if track < TRACK_COUNT {
                    self.mixer.set_level(track, v);
                }
                None
            }
            AudioCmd::SetPan(track, v) => {
                if track < TRACK_COUNT {
                    self.mixer.set_pan(track, v);
                }
                None
            }
            AudioCmd::SetMute(track, v) => {
                if track < TRACK_COUNT {
                    self.mixer.set_mute(track, v);
                }
                None
            }
            AudioCmd::SetSolo(track, v) => {
                if track < TRACK_COUNT {
                    self.mixer.set_solo(track, v);
                }
                None
            }
            AudioCmd::NoteOn(note, vel) => {
                let idx = self.synth.note_on(note, vel);
                proof {
                    assert(crate::synth::fresh_voice_scalars(
                        old(self).synth.kind,
                        note,
                        self.synth.voices@[idx as int],
                    ));
                }
                None
            }
            AudioCmd::NoteOff(note) => {
                self.synth.note_off(note);
                None
            }
            AudioCmd::SelectEngine(idx) => {
                self.synth = crate::synth::create_engine(idx);
                self.engine_index = if idx < ENGINE_COUNT {
                    idx
                } else {
                    0
                };
                None
            }
            AudioCmd::SetParam(idx, v) => {
                let c = clamp_i64(v, -0x1_0000_0000, 0x1_0000_0000);
                self.synth.set_param(idx, c);
                None
            }
            AudioCmd::ToggleStep(inst, step) => {
                if inst < INSTRUMENT_COUNT {
                    self.patterns.patterns[inst].toggle(step);
                }
                None
            }
            AudioCmd::SetBpm(bpm) => {
                self.clock.set_bpm(bpm);
                None
            }
            AudioCmd::ToggleTapeSim => {
                let e = self.tape.enabled;
                self.tape.enabled = !e;
                None
            }
            AudioCmd::SetTapeSpeed(_speed) => {
                // Variable-speed playback is not wired into the active path.
                None
            }
            AudioCmd::ToggleEffect(track, slot) => {
                if track < TRACK_COUNT {
                    self.chains[track].toggle_bypass(slot);
                }
                None
            }
            AudioCmd::SetEffectParam(track, slot, param, v) => {
                if track < TRACK_COUNT {
                    let c = clamp_i64(v, -0x1_0000_0000, 0x1_0000_0000);
                    self.chains[track].set_effect_param(slot, param, c);
                }
                None
            }
            AudioCmd::SetRecordSource(src) => {
                self.record_source = src;
                None
            }
        }
    }
}

} // verus!
