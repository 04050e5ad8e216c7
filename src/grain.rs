use vstd::prelude::*;
use rand::rngs::StdRng;
use crate::envelope::{progress, progress_spec, triangle, triangle_spec};
use crate::fixed::{div_toward_zero, trunc_div, UNITY};
use crate::random::draw_below;

verus! {

/// One sample read by a grain, with the envelope amplitude it is played at.
#[derive(Clone, Copy, Debug, PartialEq, Eq)]
pub struct GrainSample {
    pub sample_value: i16,
    /// In parts of `UNITY`.
    pub envelope_value: u32,
}

impl GrainSample {
    /// The sample scaled by its envelope.
    pub open spec fn value_spec(self) -> int {
        trunc_div(self.sample_value * self.envelope_value, UNITY as int)
    }

    /// The sample scaled by its envelope, rounded toward zero.
    pub fn value(&self) -> (r: i16)
        requires
            self.envelope_value <= UNITY,
        ensures
            r == self.value_spec(),
    {
        proof {
            let s = self.sample_value as int;
            let e = self.envelope_value as int;
            assert(-32768 * 65536 <= s * e <= 32767 * 65536) by (nonlinear_arith)
                requires -32768 <= s <= 32767, 0 <= e <= 65536;
            crate::fixed::lemma_trunc_div_bound(s * e, UNITY as int, 32768);
            if s >= 0 {
                assert(s * e <= 32767 * 65536);
                assert(s * e / 65536 <= 32767) by (nonlinear_arith)
                    requires 0 <= s * e <= 32767 * 65536;
            }
        }
        let product: i128 = (self.sample_value as i128) * (self.envelope_value as i128);
        div_toward_zero(product, UNITY as i128) as i16
    }
}

/// A playback cursor over `[start_frame, end_frame)` of a source buffer.
#[derive(Clone, Copy, Debug, PartialEq, Eq)]
pub struct Grain {
    pub start_frame: usize,
    pub end_frame: usize,
    pub current_frame: usize,
    pub length: usize,
    pub finished: bool,
}

/// The grain length used when `drawn` was drawn and `available` samples lie
/// in the selection: at least one sample, and short enough that some start
/// leaves the whole grain strictly inside the selection.
pub open spec fn clamped_length_spec(drawn: int, available: int) -> int {
    if drawn < 1 {
        1
    } else if drawn > available - 1 {
        available - 1
    } else {
        drawn
    }
}

/// The largest length that a draw over `[min_len, max_len)` can give; a
/// draw is from `min_len` alone when the range is empty.
pub open spec fn longest_draw(min_len: int, max_len: int) -> int {
    if min_len < max_len {
        max_len - 1
    } else {
        min_len
    }
}

impl Grain {
    /// Well-formed: the cursor lies in the grain, and the grain is finished
    /// exactly when the cursor has reached its end.
    pub open spec fn wf(self) -> bool {
        &&& self.end_frame == self.start_frame + self.length
        &&& self.start_frame <= self.current_frame <= self.end_frame
        &&& self.finished == (self.current_frame == self.end_frame)
    }

    /// The grain after one step of its cursor.
    pub open spec fn advanced(self) -> Grain {
        Grain {
            current_frame: (self.current_frame + 1) as usize,
            finished: self.current_frame + 1 == self.end_frame,
            ..self
        }
    }

    /// The grain with its cursor back at its start.
    pub open spec fn rewound(self) -> Grain {
        Grain { current_frame: self.start_frame, finished: false, ..self }
    }

    /// The grain after `k` steps of its cursor.
    pub open spec fn advanced_by(self, k: nat) -> Grain
        decreases k,
    {
        if k == 0 {
            self
        } else {
            self.advanced_by((k - 1) as nat).advanced()
        }
    }

    /// Envelope amplitude at the cursor.
    pub open spec fn envelope_spec(self) -> int {
        triangle_spec(progress_spec(self.current_frame - self.start_frame, self.length as int))
    }

    /// What the grain plays at its cursor, out of `samples`.
    pub open spec fn output_spec(self, samples: Seq<i16>) -> int {
        trunc_div(samples[self.current_frame as int] * self.envelope_spec(), UNITY as int)
    }

    /// A fresh grain that a spawn under the selection `[lo, hi)` with length
    /// bounds `[min_len, max_len)` may give.
    pub open spec fn spawned_within(self, lo: int, hi: int, min_len: int, max_len: int) -> bool {
        &&& self.wf()
        &&& self.current_frame == self.start_frame
        &&& !self.finished
        &&& lo <= self.start_frame
        &&& self.end_frame < hi
        &&& clamped_length_spec(min_len, hi - lo) <= self.length
        &&& self.length <= clamped_length_spec(longest_draw(min_len, max_len), hi - lo)
    }

    /// A grain over `length` samples from `start_frame`, cursor at its start.
    pub fn new(start_frame: usize, length: usize) -> (g: Grain)
        requires
            start_frame + length <= usize::MAX,
        ensures
            g.wf(),
            g.start_frame == start_frame,
            g.length == length,
            g.current_frame == start_frame,
    {
        Grain {
            start_frame,
            end_frame: start_frame + length,
            current_frame: start_frame,
            length,
            finished: length == 0,
        }
    }

    /// A finished, empty grain: the state of a voice before its first spawn.
    pub fn idle() -> (g: Grain)
        ensures
            g.wf(),
            g.finished,
            g.end_frame == 0,
    {
        Grain { start_frame: 0, end_frame: 0, current_frame: 0, length: 0, finished: true }
    }

    /// Reads the sample at the cursor with its envelope amplitude, and steps
    /// the cursor; the grain finishes when the cursor reaches its end.
    pub fn advance(&mut self, samples: &Vec<i16>) -> (s: GrainSample)
        requires
            old(self).wf(),
            !old(self).finished,
            old(self).end_frame <= samples.len(),
        ensures
            *final(self) == old(self).advanced(),
            final(self).wf(),
            s.sample_value == samples@[old(self).current_frame as int],
            s.envelope_value == old(self).envelope_spec(),
            s.envelope_value <= UNITY,
            s.value_spec() == old(self).output_spec(samples@),
    {
        let offset = self.current_frame - self.start_frame;
        let p = progress(offset, self.length);
        let envelope_value = triangle(p);
        let sample_value = samples[self.current_frame];
        self.current_frame = self.current_frame + 1;
        self.finished = self.current_frame == self.end_frame;
        GrainSample { sample_value, envelope_value }
    }
}

/// The length of a grain whose draw gave `drawn` in a selection of
/// `available` samples.
pub fn clamp_length(drawn: usize, available: usize) -> (r: usize)
    requires
        available >= 2,
    ensures
        r == clamped_length_spec(drawn as int, available as int),
        1 <= r < available,
{
    if drawn < 1 {
        1
    } else if drawn > available - 1 {
        available - 1
    } else {
        drawn
    }
}

/// Spawns a grain at a random place in the selection `[lo, hi)`, with a
/// length drawn from `[min_len, max_len)` (from `min_len` alone when that
/// range is empty) and clamped so that the grain fits. A selection of fewer
/// than two samples has no room for a grain, and gives `None`.
pub fn spawn(lo: usize, hi: usize, min_len: usize, max_len: usize, rng: &mut StdRng) -> (r: Option<Grain>)
    requires
        lo <= hi,
    ensures
        r.is_some() == (hi - lo >= 2),
        r matches Some(g) ==> g.spawned_within(lo as int, hi as int, min_len as int, max_len as int),
{
    if hi - lo < 2 {
        return None;
    }
    let drawn = if min_len < max_len {
        draw_below(rng, min_len, max_len)
    } else {
        min_len
    };
    let length = clamp_length(drawn, hi - lo);
    let start = draw_below(rng, lo, hi - length);
    Some(Grain::new(start, length))
}

/// A grain finishes after exactly as many steps as it is long: never
/// earlier, and never later.
pub proof fn lemma_finishes_after_length(g: Grain, k: nat)
    requires
        g.wf(),
        g.current_frame == g.start_frame,
        k <= g.length,
    ensures
        g.advanced_by(k).wf(),
        g.advanced_by(k).current_frame == g.start_frame + k,
        g.advanced_by(k).finished == (k == g.length),
        g.advanced_by(k).start_frame == g.start_frame,
        g.advanced_by(k).length == g.length,
    decreases k,
{
    if k > 0 {
        lemma_finishes_after_length(g, (k - 1) as nat);
    }
}

/// The first sample of a fresh grain is silent.
pub proof fn lemma_fresh_grain_silent(g: Grain, samples: Seq<i16>)
    requires
        g.wf(),
        g.current_frame == g.start_frame,
        g.length > 0,
    ensures
        g.output_spec(samples) == 0,
{
    assert(progress_spec(0, g.length as int) == 0);
    assert(g.envelope_spec() == 0);
    assert(samples[g.current_frame as int] * 0 == 0);
}

} // verus!
