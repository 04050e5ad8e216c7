use vstd::prelude::*;
use std::sync::Arc;
use rand::rngs::StdRng;
use crate::grain::{spawn, Grain};
use crate::random::seeded_rng;
use crate::selection::SelectionWindow;

verus! {

/// Shortest grain, in milliseconds, until another is set.
pub const DEFAULT_GRAIN_LEN_MIN_MS: u32 = 10;

/// Longest grain, in milliseconds (exclusive), until another is set.
pub const DEFAULT_GRAIN_LEN_MAX_MS: u32 = 100;

/// `ms` milliseconds at `sample_rate` samples per second, rounded down and
/// capped at the largest `usize`.
pub open spec fn ms_to_samples_spec(ms: int, sample_rate: int) -> int {
    if ms * sample_rate / 1000 <= usize::MAX {
        ms * sample_rate / 1000
    } else {
        usize::MAX as int
    }
}

/// The number of samples in `ms` milliseconds at `sample_rate`.
pub fn ms_to_samples(ms: u32, sample_rate: u32) -> (r: usize)
    ensures
        r == ms_to_samples_spec(ms as int, sample_rate as int),
{
    proof {
        let a = ms as int;
        let b = sample_rate as int;
        assert(a * b <= 0xffff_ffff * 0xffff_ffff) by (nonlinear_arith)
            requires 0 <= a <= 0xffff_ffff, 0 <= b <= 0xffff_ffff;
    }
    let n: u128 = (ms as u128) * (sample_rate as u128) / 1000;
    if n <= usize::MAX as u128 {
        n as usize
    } else {
        usize::MAX
    }
}

/// One voice over one frame: a playing grain steps once and plays its
/// sample; a finished grain is replaced by a fresh grain inside the
/// selection `[lo, hi)`, which steps once and plays silence; where the
/// selection has no room for a grain the voice stays finished and silent.
pub open spec fn voice_step(
    before: Grain,
    after: Grain,
    out: int,
    samples: Seq<i16>,
    lo: int,
    hi: int,
    min_len: int,
    max_len: int,
) -> bool {
    if !before.finished {
        after == before.advanced() && out == before.output_spec(samples)
    } else if hi - lo < 2 {
        after == before && out == 0
    } else {
        &&& after.rewound().spawned_within(lo, hi, min_len, max_len)
        &&& after == after.rewound().advanced()
        &&& out == 0
    }
}

/// A fixed set of voices, each playing one grain at a time out of a shared
/// source buffer, and respawning it inside the current selection when it
/// finishes.
pub struct GranularSynthesizer {
    samples: Arc<Vec<i16>>,
    sample_rate: u32,
    grain_len_min_ms: u32,
    grain_len_max_ms: u32,
    selection: SelectionWindow,
    grains: Vec<Grain>,
    rng: StdRng,
}

impl GranularSynthesizer {
    pub closed spec fn samples_spec(&self) -> Seq<i16> {
        (*self.samples)@
    }

    pub closed spec fn grains_spec(&self) -> Seq<Grain> {
        self.grains@
    }

    pub closed spec fn selection_spec(&self) -> SelectionWindow {
        self.selection
    }

    pub closed spec fn sample_rate_spec(&self) -> u32 {
        self.sample_rate
    }

    pub closed spec fn grain_len_min_ms_spec(&self) -> u32 {
        self.grain_len_min_ms
    }

    pub closed spec fn grain_len_max_ms_spec(&self) -> u32 {
        self.grain_len_max_ms
    }

    /// The number of voices.
    pub open spec fn voices_spec(&self) -> int {
        self.grains_spec().len() as int
    }

    /// Shortest grain length, in samples.
    pub open spec fn min_len_spec(&self) -> int {
        ms_to_samples_spec(self.grain_len_min_ms_spec() as int, self.sample_rate_spec() as int)
    }

    /// Longest grain length (exclusive), in samples.
    pub open spec fn max_len_spec(&self) -> int {
        ms_to_samples_spec(self.grain_len_max_ms_spec() as int, self.sample_rate_spec() as int)
    }

    /// First sample index of the selection.
    pub open spec fn lo_spec(&self) -> int {
        self.selection_spec().lo_spec(self.samples_spec().len() as int)
    }

    /// Sample index at which the selection ends.
    pub open spec fn hi_spec(&self) -> int {
        self.selection_spec().hi_spec(self.samples_spec().len() as int)
    }

    /// Every grain is well formed and lies inside the buffer; the selection
    /// is well formed.
    pub open spec fn wf(&self) -> bool {
        &&& self.selection_spec().wf()
        &&& forall|i: int|
            0 <= i < self.voices_spec() ==> {
                &&& (#[trigger] self.grains_spec()[i]).wf()
                &&& self.grains_spec()[i].end_frame <= self.samples_spec().len()
            }
    }

    /// Configuration and buffer are the same in both.
    pub open spec fn same_setup(&self, other: &GranularSynthesizer) -> bool {
        &&& self.samples_spec() == other.samples_spec()
        &&& self.sample_rate_spec() == other.sample_rate_spec()
        &&& self.grain_len_min_ms_spec() == other.grain_len_min_ms_spec()
        &&& self.grain_len_max_ms_spec() == other.grain_len_max_ms_spec()
    }

    /// A synthesizer of `voices` idle voices over `samples`, selecting the
    /// whole buffer, with the default grain lengths and a generator seeded
    /// with `seed`.
    pub fn new(samples: Arc<Vec<i16>>, sample_rate: u32, voices: usize, seed: u64) -> (s: Self)
        ensures
            s.wf(),
            s.samples_spec() == (*samples)@,
            s.sample_rate_spec() == sample_rate,
            s.grain_len_min_ms_spec() == DEFAULT_GRAIN_LEN_MIN_MS,
            s.grain_len_max_ms_spec() == DEFAULT_GRAIN_LEN_MAX_MS,
            s.selection_spec() == SelectionWindow::full_spec(),
            s.voices_spec() == voices,
            forall|i: int| 0 <= i < voices ==> (#[trigger] s.grains_spec()[i]).finished,
    {
        let mut grains: Vec<Grain> = Vec::with_capacity(voices);
        let mut i: usize = 0;
        while i < voices
            invariant
                0 <= i <= voices,
                grains@.len() == i,
                forall|k: int| 0 <= k < i ==> {
                    &&& (#[trigger] grains@[k]).wf()
                    &&& grains@[k].finished
                    &&& grains@[k].end_frame == 0
                },
            decreases voices - i,
        {
            grains.push(Grain::idle());
            i = i + 1;
        }
        GranularSynthesizer {
            samples,
            sample_rate,
            grain_len_min_ms: DEFAULT_GRAIN_LEN_MIN_MS,
            grain_len_max_ms: DEFAULT_GRAIN_LEN_MAX_MS,
            selection: SelectionWindow::full(),
            grains,
            rng: seeded_rng(seed),
        }
    }
}


impl GranularSynthesizer {
    /// Takes a new selection; grains already playing keep the bounds they
    /// were spawned under, and only later spawns use it.
    pub fn set_selection(&mut self, selection: SelectionWindow)
        requires
            old(self).wf(),
            selection.wf(),
        ensures
            final(self).wf(),
            final(self).same_setup(old(self)),
            final(self).grains_spec() == old(self).grains_spec(),
            final(self).selection_spec() == selection,
    {
        self.selection = selection;
        assert(self.grains_spec() == old(self).grains_spec());
        assert(self.wf());
    }

    /// Moves the selection's start, clamped so that it does not pass the end.
    pub fn set_selection_start(&mut self, start: u32)
        requires
            old(self).wf(),
        ensures
            final(self).wf(),
            final(self).same_setup(old(self)),
            final(self).grains_spec() == old(self).grains_spec(),
            final(self).selection_spec().end == old(self).selection_spec().end,
            final(self).selection_spec().start == crate::selection::min_spec(
                start as int,
                old(self).selection_spec().end as int,
            ),
    {
        self.selection.set_start(start);
        assert(self.grains_spec() == old(self).grains_spec());
        assert(self.wf());
    }

    /// Moves the selection's end, clamped between the start and `UNITY`.
    pub fn set_selection_end(&mut self, end: u32)
        requires
            old(self).wf(),
        ensures
            final(self).wf(),
            final(self).same_setup(old(self)),
            final(self).grains_spec() == old(self).grains_spec(),
            final(self).selection_spec().start == old(self).selection_spec().start,
            final(self).selection_spec().end == (if end < old(self).selection_spec().start {
                old(self).selection_spec().start as int
            } else {
                crate::selection::min_spec(end as int, crate::fixed::UNITY as int)
            }),
    {
        self.selection.set_end(end);
        assert(self.grains_spec() == old(self).grains_spec());
        assert(self.wf());
    }

    /// Sets the shortest grain length, in milliseconds, for later spawns.
    pub fn set_grain_len_min(&mut self, ms: u32)
        requires
            old(self).wf(),
        ensures
            final(self).wf(),
            final(self).grain_len_min_ms_spec() == ms,
            final(self).grain_len_max_ms_spec() == old(self).grain_len_max_ms_spec(),
            final(self).samples_spec() == old(self).samples_spec(),
            final(self).sample_rate_spec() == old(self).sample_rate_spec(),
            final(self).grains_spec() == old(self).grains_spec(),
            final(self).selection_spec() == old(self).selection_spec(),
    {
        self.grain_len_min_ms = ms;
        assert(self.grains_spec() == old(self).grains_spec());
        assert(self.wf());
    }

    /// Sets the longest grain length (exclusive), in milliseconds, for later spawns.
    pub fn set_grain_len_max(&mut self, ms: u32)
        requires
            old(self).wf(),
        ensures
            final(self).wf(),
            final(self).grain_len_max_ms_spec() == ms,
            final(self).grain_len_min_ms_spec() == old(self).grain_len_min_ms_spec(),
            final(self).samples_spec() == old(self).samples_spec(),
            final(self).sample_rate_spec() == old(self).sample_rate_spec(),
            final(self).grains_spec() == old(self).grains_spec(),
            final(self).selection_spec() == old(self).selection_spec(),
    {
        self.grain_len_max_ms = ms;
        assert(self.grains_spec() == old(self).grains_spec());
        assert(self.wf());
    }

    /// Plays from another buffer: every voice goes idle, so that all grains
    /// are spawned afresh against the new buffer.
    pub fn reset_buffer(&mut self, samples: Arc<Vec<i16>>)
        requires
            old(self).wf(),
        ensures
            final(self).wf(),
            final(self).samples_spec() == (*samples)@,
            final(self).sample_rate_spec() == old(self).sample_rate_spec(),
            final(self).grain_len_min_ms_spec() == old(self).grain_len_min_ms_spec(),
            final(self).grain_len_max_ms_spec() == old(self).grain_len_max_ms_spec(),
            final(self).selection_spec() == old(self).selection_spec(),
            final(self).voices_spec() == old(self).voices_spec(),
            forall|i: int|
                0 <= i < final(self).voices_spec() ==> (#[trigger] final(self).grains_spec()[i]).finished,
    {
        let ghost new_samples = (*samples)@;
        self.samples = samples;
        let n = self.grains.len();
        let mut i: usize = 0;
        while i < n
            invariant
                0 <= i <= n,
                self.grains@.len() == n,
                n == old(self).voices_spec(),
                self.samples_spec() == new_samples,
                self.sample_rate_spec() == old(self).sample_rate_spec(),
                self.grain_len_min_ms_spec() == old(self).grain_len_min_ms_spec(),
                self.grain_len_max_ms_spec() == old(self).grain_len_max_ms_spec(),
                self.selection_spec() == old(self).selection_spec(),
                self.selection_spec().wf(),
                forall|k: int|
                    0 <= k < i ==> {
                        &&& (#[trigger] self.grains@[k]).wf()
                        &&& self.grains@[k].finished
                        &&& self.grains@[k].end_frame == 0
                    },
            decreases n - i,
        {
            self.grains[i] = Grain::idle();
            i = i + 1;
        }
    }

    /// Plays one frame: every voice whose grain has finished first gets a
    /// fresh grain under the current selection, then every voice steps its
    /// grain once and writes what it plays to its slot of `out`.
    pub fn next_frame(&mut self, out: &mut Vec<i16>)
        requires
            old(self).wf(),
            old(out).len() == old(self).voices_spec(),
        ensures
            final(self).wf(),
            final(self).same_setup(old(self)),
            final(self).selection_spec() == old(self).selection_spec(),
            final(self).voices_spec() == old(self).voices_spec(),
            final(out).len() == old(out).len(),
            forall|i: int|
                0 <= i < old(self).voices_spec() ==> voice_step(
                    #[trigger] old(self).grains_spec()[i],
                    final(self).grains_spec()[i],
                    final(out)@[i] as int,
                    old(self).samples_spec(),
                    old(self).lo_spec(),
                    old(self).hi_spec(),
                    old(self).min_len_spec(),
                    old(self).max_len_spec(),
                ),
    {
        let samples: &Vec<i16> = &self.samples;
        let (lo, hi) = self.selection.bounds(samples.len());
        let min_len = ms_to_samples(self.grain_len_min_ms, self.sample_rate);
        let max_len = ms_to_samples(self.grain_len_max_ms, self.sample_rate);
        let n = self.grains.len();
        let mut i: usize = 0;
        while i < n
            invariant
                0 <= i <= n,
                n == old(self).voices_spec(),
                self.grains@.len() == n,
                out@.len() == n,
                self.same_setup(old(self)),
                self.selection_spec() == old(self).selection_spec(),
                samples@ == old(self).samples_spec(),
                lo == old(self).lo_spec(),
                hi == old(self).hi_spec(),
                lo <= hi <= samples.len(),
                min_len == old(self).min_len_spec(),
                max_len == old(self).max_len_spec(),
                old(self).wf(),
                forall|k: int| i <= k < n ==> #[trigger] self.grains@[k] == old(self).grains_spec()[k],
                forall|k: int|
                    0 <= k < i ==> {
                        &&& (#[trigger] self.grains@[k]).wf()
                        &&& self.grains@[k].end_frame <= samples.len()
                    },
                forall|k: int|
                    0 <= k < i ==> voice_step(
                        #[trigger] old(self).grains_spec()[k],
                        self.grains@[k],
                        out@[k] as int,
                        old(self).samples_spec(),
                        lo as int,
                        hi as int,
                        min_len as int,
                        max_len as int,
                    ),
            decreases n - i,
        {
            let mut g = self.grains[i];
            assert(g == old(self).grains_spec()[i as int]);
            if g.finished {
                match spawn(lo, hi, min_len, max_len, &mut self.rng) {
                    Some(fresh) => {
                        proof {
                            crate::grain::lemma_fresh_grain_silent(fresh, samples@);
                            assert(fresh.advanced().rewound() == fresh);
                        }
                        g = fresh;
                    },
                    None => {},
                }
            }
            if g.finished {
                out[i] = 0;
            } else {
                let s = g.advance(samples);
                out[i] = s.value();
            }
            self.grains[i] = g;
            i = i + 1;
        }
    }
}


impl GranularSynthesizer {
    /// The number of voices.
    pub fn voices(&self) -> (r: usize)
        ensures
            r == self.voices_spec(),
    {
        self.grains.len()
    }

    /// The grain of voice `i`.
    pub fn grain(&self, i: usize) -> (g: Grain)
        requires
            i < self.voices_spec(),
        ensures
            g == self.grains_spec()[i as int],
    {
        self.grains[i]
    }

    /// The selection used for the next spawns.
    pub fn selection(&self) -> (r: SelectionWindow)
        ensures
            r == self.selection_spec(),
    {
        self.selection
    }

    /// The number of samples in the source buffer.
    pub fn buffer_len(&self) -> (r: usize)
        ensures
            r == self.samples_spec().len(),
    {
        self.samples.len()
    }

    /// The output sample rate.
    pub fn sample_rate(&self) -> (r: u32)
        ensures
            r == self.sample_rate_spec(),
    {
        self.sample_rate
    }

    /// Shortest grain length, in milliseconds.
    pub fn grain_len_min_ms(&self) -> (r: u32)
        ensures
            r == self.grain_len_min_ms_spec(),
    {
        self.grain_len_min_ms
    }

    /// Longest grain length (exclusive), in milliseconds.
    pub fn grain_len_max_ms(&self) -> (r: u32)
        ensures
            r == self.grain_len_max_ms_spec(),
    {
        self.grain_len_max_ms
    }
}

/// Over an empty buffer every voice is idle and the selection is empty, so
/// a frame spawns no grain and every voice plays silence.
pub proof fn lemma_empty_buffer_silent(s: GranularSynthesizer, i: int, after: Grain, out: int)
    requires
        s.wf(),
        s.samples_spec().len() == 0,
        0 <= i < s.voices_spec(),
        voice_step(
            s.grains_spec()[i],
            after,
            out,
            s.samples_spec(),
            s.lo_spec(),
            s.hi_spec(),
            s.min_len_spec(),
            s.max_len_spec(),
        ),
    ensures
        s.grains_spec()[i].finished,
        after == s.grains_spec()[i],
        out == 0,
{
    let w = s.selection_spec();
    assert(crate::selection::index_spec(w.start as int, 0) == 0);
    assert(crate::selection::index_spec(w.end as int, 0) == 0);
}

} // verus!
