//! Fixed-capacity per-track sample buffers with a published valid length.
//! Samples are fixed-point values stored as `i32`.

use vstd::prelude::*;

use crate::constants::{TRACK_COUNT, TRACK_SAMPLES};
use crate::fx::abs_spec;

verus! {

/// One track's audio: a fixed-size sample array and the count of valid
/// samples published to readers.
pub struct TrackBuffer {
    pub data: Vec<i32>,
    pub len: usize,
}

impl TrackBuffer {
    pub open spec fn inv(self) -> bool {
        &&& self.data@.len() == TRACK_SAMPLES
        &&& self.len <= TRACK_SAMPLES
    }

    /// What a reader sees at `pos`: the stored sample inside the valid
    /// length, silence outside it.
    pub open spec fn spec_read(self, pos: usize) -> i32 {
        if pos < self.len {
            self.data@[pos as int]
        } else {
            0
        }
    }

    pub fn new() -> (t: TrackBuffer)
        ensures
            t.inv(),
            t.len == 0,
            forall|i: int| 0 <= i < TRACK_SAMPLES ==> #[trigger] t.data@[i] == 0,
    {
        let mut data: Vec<i32> = Vec::new();
        let mut k: usize = 0;
        while k < TRACK_SAMPLES
            invariant
                k <= TRACK_SAMPLES,
                data@.len() == k,
                forall|i: int| 0 <= i < k ==> #[trigger] data@[i] == 0,
            decreases TRACK_SAMPLES - k,
        {
            data.push(0);
            k = k + 1;
        }
        TrackBuffer { data, len: 0 }
    }

    pub fn read(&self, pos: usize) -> (r: i32)
        requires
            self.inv(),
        ensures
            r == self.spec_read(pos),
    {
        if pos < self.len {
            self.data[pos]
        } else {
            0
        }
    }

    pub fn has_data(&self) -> (r: bool)
        ensures
            r == (self.len > 0),
    {
        self.len > 0
    }

    pub fn sample_count(&self) -> (r: usize)
        ensures
            r == self.len,
    {
        self.len
    }

    /// Stores one sample and extends the published length to cover it.
    /// Positions past the capacity are silently ignored.
    pub fn write(&mut self, position: usize, sample: i32)
        requires
            old(self).inv(),
        ensures
            final(self).inv(),
            position < TRACK_SAMPLES ==> {
                &&& final(self).data@ == old(self).data@.update(position as int, sample)
                &&& final(self).len == if position >= old(self).len {
                    position + 1
                } else {
                    old(self).len as int
                }
            },
            position >= TRACK_SAMPLES ==> final(self).data@ == old(self).data@ && final(self).len
                == old(self).len,
    {
        if position < TRACK_SAMPLES {
            self.data[position] = sample;
            if position >= self.len {
                self.len = position + 1;
            }
        }
    }

    /// Unpublishes every sample.
    pub fn clear(&mut self)
        requires
            old(self).inv(),
        ensures
            final(self).inv(),
            final(self).data@ == old(self).data@,
            final(self).len == 0,
    {
        self.len = 0;
    }
}

/// The buffers of all tracks, shared between the audio callback and the
/// control thread.
pub struct SharedBuffers {
    pub tracks: Vec<TrackBuffer>,
}

impl SharedBuffers {
    pub open spec fn inv(self) -> bool {
        &&& self.tracks@.len() == TRACK_COUNT
        &&& forall|i: int| 0 <= i < TRACK_COUNT ==> (#[trigger] self.tracks@[i]).inv()
    }

    pub fn new() -> (b: SharedBuffers)
        ensures
            b.inv(),
            forall|i: int| 0 <= i < TRACK_COUNT ==> (#[trigger] b.tracks@[i]).len == 0,
    {
        let mut tracks: Vec<TrackBuffer> = Vec::new();
        let mut k: usize = 0;
        while k < TRACK_COUNT
            invariant
                k <= TRACK_COUNT,
                tracks@.len() == k,
                forall|i: int| 0 <= i < k ==> (#[trigger] tracks@[i]).inv(),
                forall|i: int| 0 <= i < k ==> (#[trigger] tracks@[i]).len == 0,
            decreases TRACK_COUNT - k,
        {
            tracks.push(TrackBuffer::new());
            k = k + 1;
        }
        SharedBuffers { tracks }
    }
}

/// Writes an input sample to the given track at the given position,
/// extending the published length; out-of-range positions and tracks are
/// ignored.
pub fn write_sample(buffers: &mut SharedBuffers, track: usize, position: usize, sample: i32)
    requires
        old(buffers).inv(),
        track < TRACK_COUNT,
    ensures
        final(buffers).inv(),
        final(buffers).tracks@.len() == old(buffers).tracks@.len(),
        forall|i: int|
            0 <= i < TRACK_COUNT && i != track ==> #[trigger] final(buffers).tracks@[i]
                == old(buffers).tracks@[i],
        position < TRACK_SAMPLES ==> {
            &&& final(buffers).tracks@[track as int].data@
                == old(buffers).tracks@[track as int].data@.update(position as int, sample)
            &&& final(buffers).tracks@[track as int].len == if position
                >= old(buffers).tracks@[track as int].len {
                position + 1
            } else {
                old(buffers).tracks@[track as int].len as int
            }
        },
        position >= TRACK_SAMPLES ==> final(buffers).tracks@[track as int].data@
            == old(buffers).tracks@[track as int].data@ && final(buffers).tracks@[track as int].len
            == old(buffers).tracks@[track as int].len,
{
    buffers.tracks[track].write(position, sample);
}

/// The largest absolute sample value in `data[start..end]`.
pub open spec fn chunk_peak(data: Seq<i32>, start: int, end: int) -> int
    decreases end - start,
{
    if end <= start {
        0
    } else {
        let rest = chunk_peak(data, start, end - 1);
        if abs_spec(data[end - 1] as int) > rest {
            abs_spec(data[end - 1] as int)
        } else {
            rest
        }
    }
}

/// Downsampled waveform for display: one peak value per output pixel, each
/// the largest absolute sample in its span of the recorded audio.
pub fn downsample_track(buffer: &TrackBuffer, width: usize) -> (r: Vec<i64>)
    requires
        buffer.inv(),
    ensures
        r@.len() == width,
        buffer.len == 0 || width == 0 || buffer.len < width ==> forall|i: int|
            0 <= i < width ==> #[trigger] r@[i] == 0,
        buffer.len >= width > 0 ==> forall|i: int|
            0 <= i < width ==> #[trigger] r@[i] == chunk_peak(
                buffer.data@,
                i * ((buffer.len / width) as int),
                i * ((buffer.len / width) as int) + ((buffer.len / width) as int),
            ),
{
    let len = buffer.sample_count();
    let mut r: Vec<i64> = Vec::new();
    if len == 0 || width == 0 || len < width {
        let mut i: usize = 0;
        while i < width
            invariant
                i <= width,
                r@.len() == i,
                forall|j: int| 0 <= j < i ==> #[trigger] r@[j] == 0,
            decreases width - i,
        {
            r.push(0);
            i = i + 1;
        }
        return r;
    }
    let spp = len / width;
    proof {
        vstd::arithmetic::div_mod::lemma_div_pos_is_pos(len as int, width as int);
        vstd::arithmetic::div_mod::lemma_div_non_zero(len as int, width as int);
        vstd::arithmetic::div_mod::lemma_fundamental_div_mod(len as int, width as int);
        vstd::arithmetic::div_mod::lemma_remainder_upper(len as int, width as int);
    }
    let mut i: usize = 0;
    while i < width
        invariant
            buffer.inv(),
            0 < width <= len,
            spp == len / width >= 1,
            len == buffer.len,
            width as int * spp as int <= len as int,
            i <= width,
            r@.len() == i,
            forall|j: int|
                0 <= j < i ==> #[trigger] r@[j] == chunk_peak(
                    buffer.data@,
                    j * spp as int,
                    j * spp as int + spp as int,
                ),
        decreases width - i,
    {
        proof {
            vstd::arithmetic::mul::lemma_mul_inequality(i + 1, width as int, spp as int);
            vstd::arithmetic::mul::lemma_mul_is_distributive_add_other_way(
                spp as int,
                i as int,
                1,
            );
        }
        let start = i * spp;
        let end = start + spp;
        let mut peak: i64 = 0;
        let mut j = start;
        while j < end
            invariant
                buffer.inv(),
                start <= j <= end,
                end <= buffer.len,
                peak == chunk_peak(buffer.data@, start as int, j as int),
                peak >= 0,
            decreases end - j,
        {
            let v = buffer.data[j];
            let a: i64 = if v >= 0 {
                v as i64
            } else {
                -(v as i64)
            };
            if a > peak {
                peak = a;
            }
            j = j + 1;
        }
        r.push(peak);
        i = i + 1;
    }
    r
}

/// The greatest published length among tracks `[0, k)`, skipping an excluded
/// track.
pub open spec fn max_len_upto(b: SharedBuffers, exclude: Option<usize>, k: int) -> int
    decreases k,
{
    if k <= 0 {
        0
    } else {
        let rest = max_len_upto(b, exclude, k - 1);
        if exclude == Some((k - 1) as usize) {
            rest
        } else if b.tracks@[k - 1].len > rest {
            b.tracks@[k - 1].len as int
        } else {
            rest
        }
    }
}

/// The greatest published length over any prefix of tracks stays within the
/// track capacity.
pub proof fn lemma_max_len_bounds(b: SharedBuffers, exclude: Option<usize>, k: int)
    requires
        b.inv(),
        0 <= k <= TRACK_COUNT,
    ensures
        0 <= max_len_upto(b, exclude, k) <= TRACK_SAMPLES,
    decreases k,
{
    if k > 0 {
        lemma_max_len_bounds(b, exclude, k - 1);
        assert(b.tracks@[k - 1].inv());
    }
}

/// The longest recorded track, excluding at most one track; `None` when
/// everything considered is empty. Used to derive a loop region from what
/// has been recorded.
pub fn detect_loop_end(buffers: &SharedBuffers, exclude_track: Option<usize>) -> (r: Option<
    usize,
>)
    requires
        buffers.inv(),
    ensures
        r == if max_len_upto(*buffers, exclude_track, TRACK_COUNT as int) > 0 {
            Some(max_len_upto(*buffers, exclude_track, TRACK_COUNT as int) as usize)
        } else {
            None::<usize>
        },
{
    let mut max_len: usize = 0;
    let mut k: usize = 0;
    while k < TRACK_COUNT
        invariant
            buffers.inv(),
            k <= TRACK_COUNT,
            max_len == max_len_upto(*buffers, exclude_track, k as int),
        decreases TRACK_COUNT - k,
    {
        let skip = match exclude_track {
            Some(e) => e == k,
            None => false,
        };
        if !skip {
            let len = buffers.tracks[k].sample_count();
            if len > max_len {
                max_len = len;
            }
        }
        k = k + 1;
    }
    if max_len > 0 {
        Some(max_len)
    } else {
        None
    }
}

} // verus!
