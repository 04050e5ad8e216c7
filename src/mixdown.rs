use vstd::prelude::*;
use crate::fixed::{div_toward_zero, trunc_div, UNITY};

verus! {

/// The most voices a mixdown takes.
pub const MAX_VOICES: usize = 65536;

/// No mixed sample is larger than this in magnitude.
pub const MAX_MIXED: i64 = 2147483648;

/// A configuration that the engine cannot run with.
#[derive(Clone, Copy, Debug, PartialEq, Eq)]
pub enum ConfigError {
    /// Fewer than two voices: there is no spread from left to right.
    TooFewVoices,
    /// More than `MAX_VOICES` voices.
    TooManyVoices,
    /// A loudness compensation below `UNITY`, which is `log2(2)`.
    LoudnessBelowUnity,
}

/// `sum_{i < k} frame[i] * (C - 1 - i)`, with `C` the frame's length: the
/// voices weighted toward the left.
pub open spec fn left_sum(frame: Seq<i16>, k: int) -> int
    decreases k,
{
    if k <= 0 {
        0
    } else {
        left_sum(frame, k - 1) + frame[k - 1] * (frame.len() - k)
    }
}

/// `sum_{i < k} frame[i] * i`: the voices weighted toward the right.
pub open spec fn right_sum(frame: Seq<i16>, k: int) -> int
    decreases k,
{
    if k <= 0 {
        0
    } else {
        right_sum(frame, k - 1) + frame[k - 1] * (k - 1)
    }
}

/// A weighted sum of `voices` voices, divided by `voices - 1` to turn the
/// weights into fractions and by the loudness compensation (in parts of
/// `UNITY`).
pub open spec fn pan_spec(sum: int, voices: int, loudness: int) -> int {
    trunc_div(sum * UNITY, (voices - 1) * loudness)
}

/// `frame[j] + frame[j + n] + frame[j + 2n] + ...`
pub open spec fn stride_sum(frame: Seq<i16>, j: int, n: int) -> int
    decreases frame.len() + n - j,
{
    if n <= 0 || j < 0 || j >= frame.len() {
        0
    } else {
        frame[j] + stride_sum(frame, j + n, n)
    }
}

/// The number of indices `j, j + n, j + 2n, ...` below `len`.
pub open spec fn stride_count(len: int, j: int, n: int) -> int
    decreases len + n - j,
{
    if n <= 0 || j < 0 || j >= len {
        0
    } else {
        1 + stride_count(len, j + n, n)
    }
}

/// Output channel `j` of `n` for a frame of voices. For two channels the
/// voices are panned from left (first voice) to right (last voice) and
/// divided by the loudness compensation. For any other count, channel `j`
/// is the mean of the voices `j, j + n, j + 2n, ...`, or, when there are
/// more channels than voices, the voice `j mod C`.
pub open spec fn mixed_spec(frame: Seq<i16>, n: int, j: int, loudness: int) -> int {
    let c = frame.len() as int;
    if n == 2 {
        if j == 0 {
            pan_spec(left_sum(frame, c), c, loudness)
        } else {
            pan_spec(right_sum(frame, c), c, loudness)
        }
    } else if n <= c {
        trunc_div(stride_sum(frame, j, n), stride_count(c, j, n))
    } else {
        frame[j % c] as int
    }
}

/// Maps a frame of voices to the device's output channels.
#[derive(Clone, Copy, Debug, PartialEq, Eq)]
pub struct Mixdown {
    voices: usize,
    loudness: u32,
}

proof fn lemma_pan_bound(sum: int, c: int, loudness: int)
    requires
        2 <= c <= MAX_VOICES,
        loudness >= UNITY,
        -(c * 32768 * (c - 1)) <= sum <= c * 32768 * (c - 1),
    ensures
        -MAX_MIXED <= pan_spec(sum, c, loudness) <= MAX_MIXED,
{
    let d = (c - 1) * loudness;
    let m = c * 32768;
    assert(d > 0) by (nonlinear_arith) requires d == (c - 1) * loudness, c >= 2, loudness >= 65536;
    assert(m * d >= c * 32768 * (c - 1) * 65536) by (nonlinear_arith)
        requires m == c * 32768, d == (c - 1) * loudness, c >= 2, loudness >= 65536;
    assert(-m * d <= sum * 65536 <= m * d) by (nonlinear_arith)
        requires
            m * d >= c * 32768 * (c - 1) * 65536,
            -(c * 32768 * (c - 1)) <= sum <= c * 32768 * (c - 1);
    crate::fixed::lemma_trunc_div_bound(sum * UNITY, d, m);
    assert(m <= MAX_MIXED) by (nonlinear_arith) requires m == c * 32768, c <= 65536;
}

impl Mixdown {
    pub closed spec fn voices_spec(&self) -> int {
        self.voices as int
    }

    /// The loudness compensation, `log2(voices)` in parts of `UNITY`.
    pub closed spec fn loudness_spec(&self) -> int {
        self.loudness as int
    }

    pub open spec fn wf(&self) -> bool {
        &&& 2 <= self.voices_spec() <= MAX_VOICES
        &&& self.loudness_spec() >= UNITY
    }

    /// A mixdown of `voices` voices whose stereo mix is divided by
    /// `loudness` (in parts of `UNITY`; `log2(voices)` keeps the perceived
    /// loudness steady as voices are added).
    pub fn new(voices: usize, loudness: u32) -> (r: Result<Mixdown, ConfigError>)
        ensures
            voices < 2 ==> r == Err::<Mixdown, ConfigError>(ConfigError::TooFewVoices),
            2 <= voices && voices > MAX_VOICES ==> r == Err::<Mixdown, ConfigError>(ConfigError::TooManyVoices),
            2 <= voices <= MAX_VOICES && loudness < UNITY ==> r == Err::<Mixdown, ConfigError>(ConfigError::LoudnessBelowUnity),
            2 <= voices <= MAX_VOICES && loudness >= UNITY ==> (r matches Ok(m) && m.wf()
                && m.voices_spec() == voices && m.loudness_spec() == loudness),
    {
        if voices < 2 {
            Err(ConfigError::TooFewVoices)
        } else if voices > MAX_VOICES {
            Err(ConfigError::TooManyVoices)
        } else if loudness < UNITY {
            Err(ConfigError::LoudnessBelowUnity)
        } else {
            Ok(Mixdown { voices, loudness })
        }
    }

    /// The number of voices.
    pub fn voices(&self) -> (r: usize)
        ensures
            r == self.voices_spec(),
    {
        self.voices
    }

    /// The loudness compensation, in parts of `UNITY`.
    pub fn loudness(&self) -> (r: u32)
        ensures
            r == self.loudness_spec(),
    {
        self.loudness
    }

    /// Mixes `frame` into every channel of `out`: `out[j]` becomes output
    /// channel `j` of `out.len()`.
    pub fn mix_into(&self, frame: &Vec<i16>, out: &mut Vec<i64>)
        requires
            self.wf(),
            frame.len() == self.voices_spec(),
        ensures
            final(out).len() == old(out).len(),
            forall|j: int|
                0 <= j < old(out).len() ==> {
                    &&& #[trigger] final(out)@[j] == mixed_spec(
                        frame@,
                        old(out).len() as int,
                        j,
                        self.loudness_spec(),
                    )
                    &&& -MAX_MIXED <= final(out)@[j] <= MAX_MIXED
                },
    {
        let c = self.voices;
        let n = out.len();
        if n == 2 {
            let mut left: i128 = 0;
            let mut right: i128 = 0;
            let mut i: usize = 0;
            while i < c
                invariant
                    0 <= i <= c,
                    c == frame@.len(),
                    2 <= c <= MAX_VOICES,
                    left == left_sum(frame@, i as int),
                    right == right_sum(frame@, i as int),
                    -(i * 32768 * (c - 1)) <= left <= i * 32768 * (c - 1),
                    -(i * 32768 * (c - 1)) <= right <= i * 32768 * (c - 1),
                decreases c - i,
            {
                let v = frame[i] as i128;
                proof {
                    let ii = i as int;
                    let cc = c as int;
                    let vv = v as int;
                    assert(-(32768 * (cc - 1)) <= vv * (cc - 1 - ii) <= 32768 * (cc - 1))
                        by (nonlinear_arith) requires -32768 <= vv <= 32767, 0 <= ii < cc;
                    assert(-(32768 * (cc - 1)) <= vv * ii <= 32768 * (cc - 1))
                        by (nonlinear_arith) requires -32768 <= vv <= 32767, 0 <= ii < cc;
                    assert((ii + 1) * 32768 * (cc - 1) == ii * 32768 * (cc - 1) + 32768 * (cc - 1))
                        by (nonlinear_arith);
                    assert(ii * 32768 * (cc - 1) <= 65536 * 32768 * 65536) by (nonlinear_arith)
                        requires 0 <= ii < cc, cc <= 65536;
                }
                left = left + v * ((c - 1 - i) as i128);
                right = right + v * (i as i128);
                i = i + 1;
            }
            let loud = self.loudness;
            proof {
                assert(c * 32768 * (c - 1) <= 65536 * 32768 * 65536) by (nonlinear_arith)
                    requires 2 <= c <= 65536;
                lemma_pan_bound(left as int, c as int, loud as int);
                lemma_pan_bound(right as int, c as int, loud as int);
                assert((c - 1) * loud <= 65536 * 0xffff_ffff) by (nonlinear_arith)
                    requires 2 <= c <= 65536, loud <= 0xffff_ffff;
                assert((c - 1) * loud > 0) by (nonlinear_arith) requires c >= 2, loud >= 65536;
            }
            let d: i128 = ((c - 1) as i128) * (loud as i128);
            let l = div_toward_zero(left * (UNITY as i128), d);
            let r = div_toward_zero(right * (UNITY as i128), d);
            out[0] = l as i64;
            out[1] = r as i64;
        } else {
            let mut j: usize = 0;
            while j < n
                invariant
                    0 <= j <= n,
                    n == out@.len(),
                    n == old(out).len(),
                    n != 2,
                    c == frame@.len(),
                    2 <= c <= MAX_VOICES,
                    forall|k: int|
                        0 <= k < j ==> {
                            &&& #[trigger] out@[k] == mixed_spec(frame@, n as int, k, self.loudness_spec())
                            &&& -MAX_MIXED <= out@[k] <= MAX_MIXED
                        },
                decreases n - j,
            {
                if n <= c {
                    let mut sum: i128 = 0;
                    let mut count: i128 = 0;
                    let mut i: usize = j;
                    while i < c
                        invariant
                            j < n <= c,
                            c == frame@.len(),
                            c <= MAX_VOICES,
                            j <= i,
                            i <= c + n,
                            i == j || count >= 1,
                            0 <= count <= i,
                            -count * 32768 <= sum <= count * 32768,
                            sum + stride_sum(frame@, i as int, n as int) == stride_sum(frame@, j as int, n as int),
                            count + stride_count(c as int, i as int, n as int) == stride_count(c as int, j as int, n as int),
                        decreases c + n - i,
                    {
                        sum = sum + frame[i] as i128;
                        count = count + 1;
                        i = i + n;
                    }
                    proof {
                        crate::fixed::lemma_trunc_div_bound(sum as int, count as int, 32768);
                    }
                    let v = div_toward_zero(sum, count);
                    out[j] = v as i64;
                } else {
                    out[j] = frame[j % c] as i64;
                }
                j = j + 1;
            }
        }
    }

    /// The frame mixed to `n` output channels.
    pub fn mix(&self, frame: &Vec<i16>, n: usize) -> (r: Vec<i64>)
        requires
            self.wf(),
            frame.len() == self.voices_spec(),
        ensures
            r.len() == n,
            forall|j: int| 0 <= j < n ==> #[trigger] r@[j] == mixed_spec(frame@, n as int, j, self.loudness_spec()),
    {
        let mut out: Vec<i64> = Vec::with_capacity(n);
        let mut k: usize = 0;
        while k < n
            invariant
                0 <= k <= n,
                out@.len() == k,
            decreases n - k,
        {
            out.push(0);
            k = k + 1;
        }
        self.mix_into(frame, &mut out);
        out
    }
}


/// With two voices the first plays only on the left and the second only on
/// the right, each divided by the loudness compensation; so the louder voice
/// gives the louder side, and equal voices give equal sides. At a
/// compensation of `UNITY` (`log2(2)`) each side is its voice exactly.
pub proof fn lemma_two_voice_panning(a: i16, b: i16, loudness: int)
    requires
        loudness >= UNITY,
    ensures
        mixed_spec(seq![a, b], 2, 0, loudness) == trunc_div(a * UNITY, loudness),
        mixed_spec(seq![a, b], 2, 1, loudness) == trunc_div(b * UNITY, loudness),
        a == b ==> mixed_spec(seq![a, b], 2, 0, loudness) == mixed_spec(seq![a, b], 2, 1, loudness),
        a <= b ==> mixed_spec(seq![a, b], 2, 0, loudness) <= mixed_spec(seq![a, b], 2, 1, loudness),
        a >= b ==> mixed_spec(seq![a, b], 2, 0, loudness) >= mixed_spec(seq![a, b], 2, 1, loudness),
        loudness == UNITY ==> mixed_spec(seq![a, b], 2, 0, loudness) == a
            && mixed_spec(seq![a, b], 2, 1, loudness) == b,
{
    let f = seq![a, b];
    assert(f.len() == 2 && f[0] == a && f[1] == b);
    assert(left_sum(f, 0) == 0);
    assert(left_sum(f, 1) == a as int);
    assert(left_sum(f, 2) == a as int);
    assert(right_sum(f, 0) == 0);
    assert(right_sum(f, 1) == 0);
    assert(right_sum(f, 2) == b as int);
    assert((2 - 1) * loudness == loudness);
    if a <= b {
        assert(a * UNITY <= b * UNITY) by (nonlinear_arith) requires a <= b;
        crate::fixed::lemma_trunc_div_monotone(a * UNITY, b * UNITY, loudness);
    }
    if a >= b {
        assert(b * UNITY <= a * UNITY) by (nonlinear_arith) requires a >= b;
        crate::fixed::lemma_trunc_div_monotone(b * UNITY, a * UNITY, loudness);
    }
    if loudness == UNITY {
        crate::fixed::lemma_trunc_div_multiple(a as int, UNITY as int);
        crate::fixed::lemma_trunc_div_multiple(b as int, UNITY as int);
    }
}

proof fn lemma_stride_uniform(frame: Seq<i16>, x: i16, j: int, n: int)
    requires
        forall|i: int| 0 <= i < frame.len() ==> frame[i] == x,
    ensures
        stride_sum(frame, j, n) == x * stride_count(frame.len() as int, j, n),
    decreases frame.len() + n - j,
{
    if n <= 0 || j < 0 || j >= frame.len() {
    } else {
        lemma_stride_uniform(frame, x, j + n, n);
        assert(x + x * stride_count(frame.len() as int, j + n, n)
            == x * (1 + stride_count(frame.len() as int, j + n, n))) by (nonlinear_arith);
    }
}

proof fn lemma_stride_count_positive(len: int, j: int, n: int)
    requires
        0 <= j < len,
        n > 0,
    ensures
        stride_count(len, j, n) >= 1,
    decreases len + n - j,
{
    assert(stride_count(len, j + n, n) >= 0) by {
        if j + n < len {
            lemma_stride_count_positive(len, j + n, n);
        }
    }
}

proof fn lemma_pan_sums_uniform(frame: Seq<i16>, x: i16, k: int)
    requires
        forall|i: int| 0 <= i < frame.len() ==> frame[i] == x,
        0 <= k <= frame.len(),
    ensures
        2 * right_sum(frame, k) == x * k * (k - 1),
        2 * left_sum(frame, k) == x * (2 * k * (frame.len() - 1) - k * (k - 1)),
    decreases k,
{
    if k > 0 {
        lemma_pan_sums_uniform(frame, x, k - 1);
        let c = frame.len() as int;
        assert(frame[k - 1] == x);
        assert(right_sum(frame, k) == right_sum(frame, k - 1) + x * (k - 1));
        assert(left_sum(frame, k) == left_sum(frame, k - 1) + x * (c - k));
        let r0 = right_sum(frame, k - 1);
        let l0 = left_sum(frame, k - 1);
        assert(2 * (r0 + x * (k - 1)) == x * k * (k - 1)) by (nonlinear_arith)
            requires 2 * r0 == x * (k - 1) * ((k - 1) - 1);
        assert(2 * (l0 + x * (c - k)) == x * (2 * k * (c - 1) - k * (k - 1))) by (nonlinear_arith)
            requires 2 * l0 == x * (2 * (k - 1) * (c - 1) - (k - 1) * ((k - 1) - 1));
    } else {
        let c = frame.len() as int;
        assert(x * k * (k - 1) == 0 && x * (2 * k * (c - 1) - k * (k - 1)) == 0) by (nonlinear_arith)
            requires k == 0;
    }
}

/// With every voice at the same value `x`, mixing keeps the level steady
/// however many voices there are: on any channel count but two every
/// channel is exactly `x`, and on two the sides are equal.
pub proof fn lemma_uniform_mix(frame: Seq<i16>, x: i16, n: int, j: int, loudness: int)
    requires
        forall|i: int| 0 <= i < frame.len() ==> frame[i] == x,
        frame.len() >= 2,
        n >= 1,
        0 <= j < n,
        loudness >= UNITY,
    ensures
        n != 2 ==> mixed_spec(frame, n, j, loudness) == x,
        n == 2 ==> mixed_spec(frame, n, 0, loudness) == mixed_spec(frame, n, 1, loudness),
{
    let c = frame.len() as int;
    if n == 2 {
        lemma_pan_sums_uniform(frame, x, c);
        assert(2 * left_sum(frame, c) == 2 * right_sum(frame, c)) by (nonlinear_arith)
            requires
                2 * right_sum(frame, c) == x * c * (c - 1),
                2 * left_sum(frame, c) == x * (2 * c * (c - 1) - c * (c - 1));
    } else if n <= c {
        lemma_stride_uniform(frame, x, j, n);
        lemma_stride_count_positive(c, j, n);
        crate::fixed::lemma_trunc_div_multiple(x as int, stride_count(c, j, n));
    } else {
        assert(0 <= j % c < c) by (nonlinear_arith) requires c > 0;
    }
}

} // verus!
