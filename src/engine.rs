use vstd::prelude::*;
use std::sync::Arc;
use crate::fixed::{div_toward_zero, trunc_div, UNITY};
use crate::mixdown::{mixed_spec, ConfigError, Mixdown, MAX_MIXED, MAX_VOICES};
use crate::selection::SelectionWindow;
use crate::synthesizer::{voice_step, GranularSynthesizer};

verus! {

/// Whether the transport is running.
#[derive(Clone, Copy, Debug, PartialEq, Eq)]
pub enum PlayStatus {
    Playing,
    Paused,
}

/// A mixed sample scaled by `gain` (in parts of `UNITY`), rounded toward zero.
pub open spec fn gained_spec(x: int, gain: int) -> int {
    trunc_div(x * gain, UNITY as int)
}

/// Scales a mixed sample by `gain`, in parts of `UNITY`.
pub fn apply_gain(x: i64, gain: u32) -> (r: i64)
    requires
        -MAX_MIXED <= x <= MAX_MIXED,
    ensures
        r == gained_spec(x as int, gain as int),
{
    proof {
        let xx = x as int;
        let g = gain as int;
        let m = 140737488355328 as int;
        assert(-m * 65536 <= xx * g <= m * 65536) by (nonlinear_arith)
            requires -2147483648 <= xx <= 2147483648, 0 <= g <= 0xffff_ffff, m == 140737488355328;
        crate::fixed::lemma_trunc_div_bound(xx * g, 65536, m);
    }
    let product: i128 = (x as i128) * (gain as i128);
    div_toward_zero(product, UNITY as i128) as i64
}

/// The synthesis path driven once per output frame: a synthesizer, the
/// mixdown of its voices, and the frame buffer between them, allocated once.
pub struct Engine {
    synth: GranularSynthesizer,
    mixdown: Mixdown,
    frame: Vec<i16>,
    buffer_version: u64,
}

impl Engine {
    pub closed spec fn synth_spec(&self) -> GranularSynthesizer {
        self.synth
    }

    pub closed spec fn mixdown_spec(&self) -> Mixdown {
        self.mixdown
    }

    /// The voices' values in the last frame played.
    pub closed spec fn frame_spec(&self) -> Seq<i16> {
        self.frame@
    }

    /// Which buffer the synthesizer plays from.
    pub closed spec fn buffer_version_spec(&self) -> u64 {
        self.buffer_version
    }

    pub open spec fn wf(&self) -> bool {
        &&& self.synth_spec().wf()
        &&& self.mixdown_spec().wf()
        &&& self.mixdown_spec().voices_spec() == self.synth_spec().voices_spec()
        &&& self.frame_spec().len() == self.synth_spec().voices_spec()
    }

    /// An engine of `voices` voices over `samples` (the buffer numbered
    /// `buffer_version`), whose stereo mix is divided by `loudness`; fails
    /// as `Mixdown::new` does on a configuration it cannot run with.
    pub fn new(
        samples: Arc<Vec<i16>>,
        buffer_version: u64,
        sample_rate: u32,
        voices: usize,
        loudness: u32,
        seed: u64,
    ) -> (r: Result<Engine, ConfigError>)
        ensures
            voices < 2 ==> r == Err::<Engine, ConfigError>(ConfigError::TooFewVoices),
            2 <= voices && voices > MAX_VOICES ==> r == Err::<Engine, ConfigError>(ConfigError::TooManyVoices),
            2 <= voices <= MAX_VOICES && loudness < UNITY ==> r == Err::<Engine, ConfigError>(ConfigError::LoudnessBelowUnity),
            2 <= voices <= MAX_VOICES && loudness >= UNITY ==> (r matches Ok(e) && {
                &&& e.wf()
                &&& e.synth_spec().samples_spec() == (*samples)@
                &&& e.synth_spec().sample_rate_spec() == sample_rate
                &&& e.synth_spec().voices_spec() == voices
                &&& e.synth_spec().selection_spec() == SelectionWindow::full_spec()
                &&& e.mixdown_spec().loudness_spec() == loudness
                &&& e.buffer_version_spec() == buffer_version
                &&& forall|i: int| 0 <= i < voices ==> (#[trigger] e.synth_spec().grains_spec()[i]).finished
            }),
    {
        let mixdown = match Mixdown::new(voices, loudness) {
            Ok(m) => m,
            Err(e) => {
                return Err(e);
            },
        };
        let synth = GranularSynthesizer::new(samples, sample_rate, voices, seed);
        let mut frame: Vec<i16> = Vec::with_capacity(voices);
        let mut i: usize = 0;
        while i < voices
            invariant
                0 <= i <= voices,
                frame@.len() == i,
            decreases voices - i,
        {
            frame.push(0);
            i = i + 1;
        }
        Ok(Engine { synth, mixdown, frame, buffer_version })
    }

    /// The synthesizer.
    pub fn synthesizer(&self) -> (r: &GranularSynthesizer)
        ensures
            *r == self.synth_spec(),
    {
        &self.synth
    }

    /// The mixdown.
    pub fn mixdown(&self) -> (r: &Mixdown)
        ensures
            *r == self.mixdown_spec(),
    {
        &self.mixdown
    }

    /// Sets the grain length bounds, in milliseconds, for later spawns.
    pub fn set_grain_lengths(&mut self, min_ms: u32, max_ms: u32)
        requires
            old(self).wf(),
        ensures
            final(self).wf(),
            final(self).synth_spec().grain_len_min_ms_spec() == min_ms,
            final(self).synth_spec().grain_len_max_ms_spec() == max_ms,
            final(self).synth_spec().samples_spec() == old(self).synth_spec().samples_spec(),
            final(self).synth_spec().sample_rate_spec() == old(self).synth_spec().sample_rate_spec(),
            final(self).synth_spec().grains_spec() == old(self).synth_spec().grains_spec(),
            final(self).synth_spec().selection_spec() == old(self).synth_spec().selection_spec(),
            final(self).mixdown_spec() == old(self).mixdown_spec(),
            final(self).buffer_version_spec() == old(self).buffer_version_spec(),
    {
        self.synth.set_grain_len_min(min_ms);
        self.synth.set_grain_len_max(max_ms);
    }

    /// The voices' values in the last frame played.
    pub fn last_frame(&self) -> (r: &Vec<i16>)
        ensures
            r@ == self.frame_spec(),
    {
        &self.frame
    }

    /// The number of the buffer played from.
    pub fn buffer_version(&self) -> (r: u64)
        ensures
            r == self.buffer_version_spec(),
    {
        self.buffer_version
    }

    /// Switches to the buffer numbered `version` when it is another buffer
    /// and holds samples: all voices then start afresh on it. An empty
    /// buffer, or the same one again, changes nothing.
    pub fn replace_buffer(&mut self, samples: Arc<Vec<i16>>, version: u64)
        requires
            old(self).wf(),
        ensures
            final(self).wf(),
            (samples.len() == 0 || version == old(self).buffer_version_spec()) ==> *final(self) == *old(self),
            (samples.len() > 0 && version != old(self).buffer_version_spec()) ==> {
                &&& final(self).buffer_version_spec() == version
                &&& final(self).synth_spec().samples_spec() == (*samples)@
                &&& final(self).synth_spec().selection_spec() == old(self).synth_spec().selection_spec()
                &&& final(self).synth_spec().voices_spec() == old(self).synth_spec().voices_spec()
                &&& final(self).mixdown_spec() == old(self).mixdown_spec()
                &&& forall|i: int|
                    0 <= i < final(self).synth_spec().voices_spec()
                        ==> (#[trigger] final(self).synth_spec().grains_spec()[i]).finished
            },
    {
        if samples.len() > 0 && version != self.buffer_version {
            self.synth.reset_buffer(samples);
            self.buffer_version = version;
        }
    }

    /// Produces one output frame into `out`, one sample per device channel.
    /// Paused, every channel is silent and nothing else happens. Playing,
    /// the synthesizer takes `selection`, plays one frame, and each output
    /// channel is the mixdown of that frame scaled by `gain` (in parts of
    /// `UNITY`).
    pub fn render_frame(
        &mut self,
        status: PlayStatus,
        selection: SelectionWindow,
        gain: u32,
        out: &mut Vec<i64>,
    )
        requires
            old(self).wf(),
            selection.wf(),
        ensures
            final(self).wf(),
            final(out).len() == old(out).len(),
            status == PlayStatus::Paused ==> {
                &&& *final(self) == *old(self)
                &&& forall|j: int| 0 <= j < old(out).len() ==> #[trigger] final(out)@[j] == 0
            },
            status == PlayStatus::Playing ==> {
                let before = old(self).synth_spec();
                let after = final(self).synth_spec();
                let len = before.samples_spec().len() as int;
                &&& after.same_setup(&before)
                &&& after.selection_spec() == selection
                &&& after.voices_spec() == before.voices_spec()
                &&& final(self).mixdown_spec() == old(self).mixdown_spec()
                &&& final(self).buffer_version_spec() == old(self).buffer_version_spec()
                &&& forall|i: int|
                    0 <= i < before.voices_spec() ==> voice_step(
                        #[trigger] before.grains_spec()[i],
                        after.grains_spec()[i],
                        final(self).frame_spec()[i] as int,
                        before.samples_spec(),
                        selection.lo_spec(len),
                        selection.hi_spec(len),
                        before.min_len_spec(),
                        before.max_len_spec(),
                    )
                &&& forall|j: int|
                    0 <= j < old(out).len() ==> #[trigger] final(out)@[j] == gained_spec(
                        mixed_spec(
                            final(self).frame_spec(),
                            old(out).len() as int,
                            j,
                            old(self).mixdown_spec().loudness_spec(),
                        ),
                        gain as int,
                    )
            },
    {
        let n = out.len();
        match status {
            PlayStatus::Paused => {
                let mut j: usize = 0;
                while j < n
                    invariant
                        0 <= j <= n,
                        out@.len() == n,
                        forall|k: int| 0 <= k < j ==> #[trigger] out@[k] == 0,
                    decreases n - j,
                {
                    out[j] = 0;
                    j = j + 1;
                }
            },
            PlayStatus::Playing => {
                self.synth.set_selection(selection);
                self.synth.next_frame(&mut self.frame);
                self.mixdown.mix_into(&self.frame, out);
                let ghost mixed = out@;
                let mut j: usize = 0;
                while j < n
                    invariant
                        0 <= j <= n,
                        out@.len() == n,
                        mixed.len() == n,
                        forall|k: int| j <= k < n ==> #[trigger] out@[k] == mixed[k],
                        forall|k: int| 0 <= k < n ==> -MAX_MIXED <= #[trigger] mixed[k] <= MAX_MIXED,
                        forall|k: int| 0 <= k < j ==> #[trigger] out@[k] == gained_spec(mixed[k] as int, gain as int),
                    decreases n - j,
                {
                    let v = apply_gain(out[j], gain);
                    out[j] = v;
                    j = j + 1;
                }
            },
        }
    }
}

} // verus!
