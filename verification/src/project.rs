//! Project persistence logic: each track is carried as one mono WAV, with a
//! sidecar document of mixer and tempo settings. The WAV container is
//! encoded and decoded by the `hound` crate over in-memory byte vectors;
//! everything around those calls — the sample quantization, its inverse,
//! multichannel downmixing, and repopulating the track buffers — is
//! verified. Reading and writing files stays outside the library.

use vstd::prelude::*;

use crate::buffer::SharedBuffers;
use crate::constants::{FX_ONE, SAMPLE_RATE, TRACK_COUNT, TRACK_SAMPLES};
use crate::fx::{clamp_i64, clamp_spec, div_trunc, tdiv};

verus! {

/// The byte image `hound` produces for these mono 32-bit integer samples at
/// this sample rate.
pub uninterp spec fn wav_bytes_of(samples: Seq<i32>, sample_rate: u32) -> Seq<u8>;

/// Raw integer WAV content: channel count, bit depth, sample rate and the
/// interleaved samples as stored.
pub struct WavAudio {
    pub channels: u16,
    pub bits: u16,
    pub sample_rate: u32,
    pub samples: Vec<i32>,
}

/// Relies on hound's `WavWriter`: writing mono 32-bit integer samples into
/// an in-memory WAV yields the byte image this library calls
/// `wav_bytes_of`. The bounds keep hound's header arithmetic total: it
/// divides by the sample rate and carries the byte rate and the data size
/// in 32-bit fields, so a zero or huge rate and an over-long track are
/// excluded; under them, writing into memory cannot fail.
#[verifier::external_body]
fn wav_encode_i32(samples: &Vec<i32>, sample_rate: u32) -> (r: Option<Vec<u8>>)
    requires
        1 <= sample_rate <= 0x3FF_FFFF,
        samples@.len() <= 0xFFF_FFFF,
    ensures
        r is Some,
        r.unwrap()@ == wav_bytes_of(samples@, sample_rate),
{
    let spec = hound::WavSpec {
        channels: 1, sample_rate, bits_per_sample: 32, sample_format: hound::SampleFormat::Int,
    };
    let mut bytes: Vec<u8> = Vec::new();
    let mut writer = hound::WavWriter::new(std::io::Cursor::new(&mut bytes), spec).ok()?;
    for s in samples.iter() {
        writer.write_sample(*s).ok()?;
    }
    writer.finalize().ok()?;
    Some(bytes)
}

/// Relies on hound's `WavReader`: reading an integer WAV from memory yields
/// its spec and raw samples; in particular, reading back a byte image that
/// `WavWriter` produced for mono 32-bit integer samples returns exactly
/// those samples. Float WAVs and malformed bytes yield `None`. The bit
/// depth is only vouched for once a sample has been read, because an
/// extensible header may carry a fantasy depth over an empty data chunk.
#[verifier::external_body]
fn wav_decode_int(bytes: &Vec<u8>) -> (r: Option<WavAudio>)
    ensures
        forall|s: Seq<i32>, sr: u32|
            bytes@ == #[trigger] wav_bytes_of(s, sr) ==> r is Some && r.unwrap().samples@ == s
                && r.unwrap().channels == 1 && r.unwrap().bits == 32 && r.unwrap().sample_rate
                == sr,
        r is Some && r.unwrap().samples@.len() > 0 ==> 1 <= r.unwrap().bits <= 32,
{
    let mut reader = hound::WavReader::new(std::io::Cursor::new(bytes)).ok()?;
    let spec = reader.spec();
    if spec.sample_format != hound::SampleFormat::Int {
        return None;
    }
    let samples = reader.samples::<i32>().collect::<Result<Vec<i32>, _>>().ok()?;
    Some(WavAudio {
        channels: spec.channels, bits: spec.bits_per_sample,
        sample_rate: spec.sample_rate, samples,
    })
}

/// A fixed-point sample as stored in a 32-bit PCM WAV: scaled to full
/// scale, saturating at the integer limits.
pub open spec fn to_pcm_spec(s: i32) -> i32 {
    clamp_spec((s as int) * 32768, i32::MIN as int, i32::MAX as int) as i32
}

/// A stored PCM value of the given bit depth as a fixed-point sample:
/// scaled down from that depth's full scale, saturating.
pub open spec fn from_pcm_spec(v: int, bits: u16) -> int {
    let full = if bits <= 8 {
        127
    } else if bits <= 16 {
        32767
    } else if bits <= 24 {
        8_388_608
    } else {
        2_147_483_648
    };
    clamp_spec(tdiv(v * (FX_ONE as int), full), i32::MIN as int, i32::MAX as int)
}

fn to_pcm(s: i32) -> (r: i32)
    ensures
        r == to_pcm_spec(s),
{
    let wide = (s as i64) * 32768;
    clamp_i64(wide, i32::MIN as i64, i32::MAX as i64) as i32
}

fn from_pcm(v: i32, bits: u16) -> (r: i32)
    ensures
        r as int == from_pcm_spec(v as int, bits),
{
    let full: i64 = if bits <= 8 {
        127
    } else if bits <= 16 {
        32767
    } else if bits <= 24 {
        8_388_608
    } else {
        2_147_483_648
    };
    let scaled = div_trunc((v as i64) * FX_ONE, full);
    clamp_i64(scaled, i32::MIN as i64, i32::MAX as i64) as i32
}

/// Quantization round trip: any fixed-point sample strictly inside full
/// scale survives being stored as 32-bit PCM and loaded back unchanged;
/// the two clamp endpoints move by at most one step.
pub proof fn lemma_pcm_roundtrip(s: i32)
    requires
        -FX_ONE < s < FX_ONE,
    ensures
        from_pcm_spec(to_pcm_spec(s) as int, 32) == s,
{
    let stored = (s as int) * 32768;
    assert(-0x8000_0000 < (s as int) * 32768 < 0x8000_0000) by (nonlinear_arith)
        requires
            -FX_ONE < s < FX_ONE,
    ;
    assert(to_pcm_spec(s) == stored);
    assert(((s as int) * 32768) * (FX_ONE as int) == (s as int) * 2_147_483_648)
        by (nonlinear_arith);
    if s >= 0 {
        vstd::arithmetic::div_mod::lemma_div_by_multiple(s as int, 2_147_483_648);
        assert((s as int) * 2_147_483_648 == 2_147_483_648 * (s as int)) by (nonlinear_arith);
        vstd::arithmetic::div_mod::lemma_div_multiples_vanish(s as int, 2_147_483_648);
    } else {
        assert(-((s as int) * 2_147_483_648) == (-s as int) * 2_147_483_648) by (nonlinear_arith);
        vstd::arithmetic::div_mod::lemma_div_multiples_vanish(-s as int, 2_147_483_648);
        assert((-s as int) * 2_147_483_648 == 2_147_483_648 * (-s as int)) by (nonlinear_arith);
    }
}

/// The PCM image of a recorded track.
pub open spec fn track_pcm_spec(samples: Seq<i32>) -> Seq<i32> {
    samples.map_values(|s: i32| to_pcm_spec(s))
}

/// Round trip: a track whose samples all lie strictly inside full scale is
/// reproduced exactly by storing its PCM image and scaling it back, which
/// is what saving a track and loading its file does.
pub proof fn lemma_track_roundtrip(samples: Seq<i32>)
    requires
        forall|i: int| 0 <= i < samples.len() ==> -FX_ONE < #[trigger] samples[i] < FX_ONE,
    ensures
        track_pcm_spec(samples).map_values(|v: i32| from_pcm_spec(v as int, 32) as i32)
            == samples,
{
    let back = track_pcm_spec(samples).map_values(|v: i32| from_pcm_spec(v as int, 32) as i32);
    assert forall|i: int| 0 <= i < samples.len() implies back[i] == samples[i] by {
        lemma_pcm_roundtrip(samples[i]);
    }
    assert(back =~= samples);
}

/// Encodes a recorded track's fixed-point samples as a mono 32-bit PCM WAV
/// byte image. The length bound is the WAV container's own: its data size
/// lives in a 32-bit field; a full-length track stays far inside it.
pub fn encode_track(samples: &Vec<i32>) -> (r: Option<Vec<u8>>)
    requires
        samples@.len() <= 0xFFF_FFFF,
    ensures
        r is Some,
        r.unwrap()@ == wav_bytes_of(track_pcm_spec(samples@), SAMPLE_RATE),
{
    let mut pcm: Vec<i32> = Vec::new();
    let mut k: usize = 0;
    while k < samples.len()
        invariant
            k <= samples@.len(),
            pcm@.len() == k,
            forall|i: int| 0 <= i < k ==> #[trigger] pcm@[i] == to_pcm_spec(samples@[i]),
        decreases samples@.len() - k,
    {
        pcm.push(to_pcm(samples[k]));
        k = k + 1;
    }
    proof {
        assert(pcm@ =~= track_pcm_spec(samples@));
    }
    wav_encode_i32(&pcm, SAMPLE_RATE)
}

/// One downmixed mono frame: the average of the frame's channel samples,
/// after scaling each to fixed point.
pub open spec fn mono_frame_spec(w: WavAudio, f: int) -> int {
    tdiv(frame_sum_spec(w, f, w.channels as int), w.channels as int)
}

pub open spec fn frame_sum_spec(w: WavAudio, f: int, k: int) -> int
    decreases k,
{
    if k <= 0 {
        0
    } else {
        frame_sum_spec(w, f, k - 1) + from_pcm_spec(
            w.samples@[f * (w.channels as int) + (k - 1)] as int,
            w.bits,
        )
    }
}

/// Converts decoded integer WAV content to mono fixed-point samples: each
/// raw value is scaled down from its bit depth's full scale, and
/// multichannel frames are averaged to mono.
pub fn convert_wav_audio(w: &WavAudio) -> (r: Vec<i32>)
    requires
        w.channels >= 1,
    ensures
        w.channels == 1 ==> r@ == w.samples@.map_values(
            |v: i32| from_pcm_spec(v as int, w.bits) as i32,
        ),
        w.channels >= 2 ==> {
            &&& r@.len() == w.samples@.len() as int / w.channels as int
            &&& forall|f: int| 0 <= f < r@.len() ==> #[trigger] r@[f] == mono_frame_spec(*w, f) as i32
        },
{
    if w.channels == 1 {
        let mut out: Vec<i32> = Vec::new();
        let mut k: usize = 0;
        while k < w.samples.len()
            invariant
                k <= w.samples@.len(),
                out@.len() == k,
                forall|i: int|
                    0 <= i < k ==> #[trigger] out@[i] == from_pcm_spec(
                        w.samples@[i] as int,
                        w.bits,
                    ) as i32,
            decreases w.samples@.len() - k,
        {
            out.push(from_pcm(w.samples[k], w.bits));
            k = k + 1;
        }
        proof {
            assert(out@ =~= w.samples@.map_values(
                |v: i32| from_pcm_spec(v as int, w.bits) as i32,
            ));
        }
        out
    } else {
        let ch = w.channels as usize;
        let total = w.samples.len();
        let frames = total / ch;
        let mut out: Vec<i32> = Vec::new();
        let mut f: usize = 0;
        proof {
            vstd::arithmetic::div_mod::lemma_fundamental_div_mod(
                w.samples@.len() as int,
                ch as int,
            );
            vstd::arithmetic::div_mod::lemma_remainder_upper(
                w.samples@.len() as int,
                ch as int,
            );
        }
        while f < frames
            invariant
                2 <= ch <= 0x1_0000,
                ch == w.channels,
                total == w.samples@.len(),
                frames == total as int / ch as int,
                (frames as int) * (ch as int) <= total as int,
                f <= frames,
                out@.len() == f,
                forall|i: int| 0 <= i < f ==> #[trigger] out@[i] == mono_frame_spec(*w, i) as i32,
            decreases frames - f,
        {
            proof {
                assert((f as int + 1) * (ch as int) <= (frames as int) * (ch as int))
                    by (nonlinear_arith)
                    requires
                        f < frames,
                        ch >= 1,
                ;
                assert((f as int + 1) * (ch as int) == (f as int) * (ch as int) + (
                ch as int)) by (nonlinear_arith);
                assert(0 <= (f as int) * (ch as int)) by (nonlinear_arith)
                    requires
                        0 <= f,
                        0 <= ch,
                ;
                assert((f as int) * (ch as int) + (ch as int) <= total as int);
            }
            let base = f * ch;
            let mut sum: i64 = 0;
            let mut k: usize = 0;
            while k < ch
                invariant
                    2 <= ch <= 0x1_0000,
                    ch == w.channels,
                    k <= ch,
                    base == (f as int) * (ch as int),
                    total == w.samples@.len(),
                    base + ch <= total,
                    sum == frame_sum_spec(*w, f as int, k as int),
                    -(k as int) * 0x8000_0000 <= sum <= (k as int) * 0x7FFF_FFFF,
                decreases ch - k,
            {
                let v = from_pcm(w.samples[base + k], w.bits);
                proof {
                    assert((k as int + 1) * 0x8000_0000 == (k as int) * 0x8000_0000
                        + 0x8000_0000) by (nonlinear_arith);
                    assert((k as int + 1) * 0x7FFF_FFFF == (k as int) * 0x7FFF_FFFF
                        + 0x7FFF_FFFF) by (nonlinear_arith);
                }
                sum = sum + (v as i64);
                k = k + 1;
            }
            let avg = div_trunc(sum, ch as i64);
            proof {
                assert(avg == mono_frame_spec(*w, f as int));
                lemma_avg_bounded(*w, f as int);
            }
            out.push(avg as i32);
            f = f + 1;
        }
        out
    }
}

/// Decodes a WAV byte image into mono fixed-point samples: integer WAVs of
/// any common bit depth are scaled and downmixed through
/// `convert_wav_audio`; float WAVs, zero-channel images and malformed bytes
/// are rejected. A byte image this library produced for samples strictly
/// inside full scale decodes back to exactly those samples.
pub fn decode_track(bytes: &Vec<u8>) -> (r: Option<Vec<i32>>)
    ensures
        forall|s: Seq<i32>, sr: u32|
            bytes@ == #[trigger] wav_bytes_of(s, sr) ==> r is Some && r.unwrap()@
                == s.map_values(|v: i32| from_pcm_spec(v as int, 32) as i32),
{
    let decoded = wav_decode_int(bytes);
    match decoded {
        None => None,
        Some(w) => {
            if w.channels == 0 {
                proof {
                    assert forall|s: Seq<i32>, sr: u32|
                        bytes@ != #[trigger] wav_bytes_of(s, sr) by {}
                }
                return None;
            }
            Some(convert_wav_audio(&w))
        }
    }
}

/// A frame average stays within the 32-bit sample range, like the scaled
/// samples it averages.
proof fn lemma_avg_bounded(w: WavAudio, f: int)
    requires
        w.channels >= 1,
    ensures
        -0x8000_0000 <= mono_frame_spec(w, f) <= 0x7FFF_FFFF,
{
    lemma_frame_sum_bounded(w, f, w.channels as int);
    let sum = frame_sum_spec(w, f, w.channels as int);
    let ch = w.channels as int;
    if sum >= 0 {
        vstd::arithmetic::div_mod::lemma_div_pos_is_pos(sum, ch);
        vstd::arithmetic::div_mod::lemma_div_is_ordered(sum, ch * 0x7FFF_FFFF, ch);
        vstd::arithmetic::div_mod::lemma_div_multiples_vanish(0x7FFF_FFFF, ch);
        assert(ch * 0x7FFF_FFFF == 0x7FFF_FFFFint * ch) by (nonlinear_arith);
    } else {
        vstd::arithmetic::div_mod::lemma_div_pos_is_pos(-sum, ch);
        vstd::arithmetic::div_mod::lemma_div_is_ordered(-sum, ch * 0x8000_0000, ch);
        vstd::arithmetic::div_mod::lemma_div_multiples_vanish(0x8000_0000, ch);
        assert(ch * 0x8000_0000 == 0x8000_0000int * ch) by (nonlinear_arith);
    }
}

proof fn lemma_frame_sum_bounded(w: WavAudio, f: int, k: int)
    requires
        0 <= k,
    ensures
        -k * 0x8000_0000 <= frame_sum_spec(w, f, k) <= k * 0x7FFF_FFFF,
    decreases k,
{
    if k > 0 {
        lemma_frame_sum_bounded(w, f, k - 1);
        assert(k * 0x8000_0000 == (k - 1) * 0x8000_0000 + 0x8000_0000) by (nonlinear_arith);
        assert(k * 0x7FFF_FFFF == (k - 1) * 0x7FFF_FFFF + 0x7FFF_FFFF) by (nonlinear_arith);
        assert(-0x8000_0000 <= from_pcm_spec(
            w.samples@[f * (w.channels as int) + (k - 1)] as int,
            w.bits,
        ) <= 0x7FFF_FFFF);
    }
}

/// Replaces one track's audio with loaded samples: the prefix that fits the
/// track is copied and published, so the track holds exactly the loaded
/// audio.
pub fn apply_loaded_track(buffers: &mut SharedBuffers, track: usize, samples: &Vec<i32>)
    requires
        old(buffers).inv(),
        track < TRACK_COUNT,
    ensures
        final(buffers).inv(),
        forall|i: int|
            0 <= i < TRACK_COUNT && i != track ==> #[trigger] final(buffers).tracks@[i] == old(
                buffers,
            ).tracks@[i],
        ({
            let n = if samples@.len() <= TRACK_SAMPLES {
                samples@.len() as int
            } else {
                TRACK_SAMPLES as int
            };
            &&& final(buffers).tracks@[track as int].len == n
            &&& forall|i: int|
                0 <= i < n ==> final(buffers).tracks@[track as int].data@[i] == samples@[i]
        }),
{
    let n = if samples.len() <= TRACK_SAMPLES {
        samples.len()
    } else {
        TRACK_SAMPLES
    };
    let mut k: usize = 0;
    buffers.tracks[track].clear();
    while k < n
        invariant
            buffers.inv(),
            track < TRACK_COUNT,
            n <= samples@.len(),
            n <= TRACK_SAMPLES,
            k <= n,
            buffers.tracks@.len() == TRACK_COUNT,
            forall|i: int|
                0 <= i < TRACK_COUNT && i != track ==> #[trigger] buffers.tracks@[i] == old(
                    buffers,
                ).tracks@[i],
            buffers.tracks@[track as int].len == k,
            forall|i: int| 0 <= i < k ==> buffers.tracks@[track as int].data@[i] == samples@[i],
        decreases n - k,
    {
        crate::buffer::write_sample(buffers, track, k, samples[k]);
        k = k + 1;
    }
}

/// Unpublishes every track's audio, so tracks whose files are missing keep
/// no stale samples.
pub fn reset_track_lengths(buffers: &mut SharedBuffers)
    requires
        old(buffers).inv(),
    ensures
        final(buffers).inv(),
        forall|i: int| 0 <= i < TRACK_COUNT ==> (#[trigger] final(buffers).tracks@[i]).len == 0,
        forall|i: int|
            0 <= i < TRACK_COUNT ==> (#[trigger] final(buffers).tracks@[i]).data@ == old(
                buffers,
            ).tracks@[i].data@,
{
    let mut k: usize = 0;
    while k < TRACK_COUNT
        invariant
            buffers.inv(),
            buffers.tracks@.len() == TRACK_COUNT,
            k <= TRACK_COUNT,
            forall|i: int| 0 <= i < k ==> (#[trigger] buffers.tracks@[i]).len == 0,
            forall|i: int|
                0 <= i < TRACK_COUNT ==> (#[trigger] buffers.tracks@[i]).data@ == old(
                    buffers,
                ).tracks@[i].data@,
            forall|i: int|
                k <= i < TRACK_COUNT ==> (#[trigger] buffers.tracks@[i]).len == old(
                    buffers,
                ).tracks@[i].len,
        decreases TRACK_COUNT - k,
    {
        buffers.tracks[k].clear();
        k = k + 1;
    }
}

/// Per-track settings carried by the project document.
#[derive(Clone)]
pub struct TrackMeta {
    pub index: usize,
    pub level: i64,
    pub pan: i64,
    pub muted: bool,
    pub solo: bool,
    pub armed: bool,
    pub filename: String,
}

/// The project document: a name, the tempo, the format sizing, and one
/// entry per track.
#[derive(Clone)]
pub struct ProjectMeta {
    pub name: String,
    pub bpm: u32,
    pub track_count: usize,
    pub sample_rate: u32,
    pub tracks: Vec<TrackMeta>,
}

impl ProjectMeta {
    /// A fresh project: default mixer settings and one WAV filename per
    /// track.
    pub fn new(name: String) -> (m: ProjectMeta)
        ensures
            m.bpm == 120,
            m.sample_rate == SAMPLE_RATE,
            m.track_count == TRACK_COUNT,
            m.tracks@.len() == TRACK_COUNT,
            forall|i: int|
                0 <= i < TRACK_COUNT ==> {
                    &&& (#[trigger] m.tracks@[i]).index == i
                    &&& m.tracks@[i].level == 52429
                    &&& m.tracks@[i].pan == 0
                    &&& !m.tracks@[i].muted
                    &&& !m.tracks@[i].solo
                    &&& !m.tracks@[i].armed
                },
    {
        let mut tracks: Vec<TrackMeta> = Vec::new();
        let mut i: usize = 0;
        while i < TRACK_COUNT
            invariant
                i <= TRACK_COUNT,
                tracks@.len() == i,
                forall|j: int|
                    0 <= j < i ==> {
                        &&& (#[trigger] tracks@[j]).index == j
                        &&& tracks@[j].level == 52429
                        &&& tracks@[j].pan == 0
                        &&& !tracks@[j].muted
                        &&& !tracks@[j].solo
                        &&& !tracks@[j].armed
                    },
            decreases TRACK_COUNT - i,
        {
            let filename: &str = if i == 0 {
                "track_1.wav"
            } else if i == 1 {
                "track_2.wav"
            } else if i == 2 {
                "track_3.wav"
            } else {
                "track_4.wav"
            };
            tracks.push(
                TrackMeta {
                    index: i,
                    level: 52429,
                    pan: 0,
                    muted: false,
                    solo: false,
                    armed: false,
                    filename: filename.to_string(),
                },
            );
            i = i + 1;
        }
        ProjectMeta {
            name,
            bpm: 120,
            track_count: TRACK_COUNT,
            sample_rate: SAMPLE_RATE,
            tracks,
        }
    }
}

} // verus!
