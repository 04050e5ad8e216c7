use vstd::prelude::*;
use crate::fixed::UNITY;

verus! {

/// The part of the source buffer that new grains are drawn from, as two
/// positions in parts of `UNITY` (0 is the buffer's start, `UNITY` its end).
#[derive(Clone, Copy, Debug, PartialEq, Eq)]
pub struct SelectionWindow {
    pub start: u32,
    pub end: u32,
}

/// The sample index of position `pos` in a buffer of `len` samples:
/// `pos / UNITY * len`, rounded to the nearest index (halves round up).
pub open spec fn index_spec(pos: int, len: int) -> int {
    (pos * len + UNITY / 2) / (UNITY as int)
}

pub open spec fn min_spec(a: int, b: int) -> int {
    if a <= b { a } else { b }
}

proof fn lemma_index_ordered(a: int, b: int, len: int)
    requires
        0 <= a <= b <= UNITY,
        len >= 0,
    ensures
        0 <= index_spec(a, len) <= index_spec(b, len) <= len,
{
    assert(a * len <= b * len) by (nonlinear_arith) requires a <= b, len >= 0;
    assert(0 <= a * len) by (nonlinear_arith) requires a >= 0, len >= 0;
    assert(b * len <= UNITY * len) by (nonlinear_arith) requires b <= UNITY, len >= 0;
    let h = (UNITY / 2) as int;
    assert((a * len + h) / 65536 <= (b * len + h) / 65536) by (nonlinear_arith)
        requires 0 <= a * len + h <= b * len + h;
    assert((b * len + h) / 65536 <= (65536 * len + h) / 65536) by (nonlinear_arith)
        requires 0 <= b * len + h <= 65536 * len + h;
    assert((65536 * len + h) / 65536 == len) by (nonlinear_arith)
        requires h == 32768;
    assert(0 <= (a * len + h) / 65536) by (nonlinear_arith) requires 0 <= a * len + h;
}

impl SelectionWindow {
    /// Positions lie in `[0, UNITY]`, start no later than end.
    pub open spec fn wf(self) -> bool {
        self.start <= self.end <= UNITY
    }

    pub open spec fn full_spec() -> SelectionWindow {
        SelectionWindow { start: 0, end: UNITY }
    }

    /// The whole buffer.
    pub fn full() -> (w: SelectionWindow)
        ensures
            w.wf(),
            w == Self::full_spec(),
    {
        SelectionWindow { start: 0, end: UNITY }
    }

    /// A window from two positions: the end is clamped to `UNITY`, and the
    /// start to the end.
    pub fn new(start: u32, end: u32) -> (w: SelectionWindow)
        ensures
            w.wf(),
            w.end == min_spec(end as int, UNITY as int),
            w.start == min_spec(start as int, w.end as int),
    {
        let end = if end <= UNITY { end } else { UNITY };
        let start = if start <= end { start } else { end };
        SelectionWindow { start, end }
    }

    /// Moves the start, clamped so that it does not pass the end.
    pub fn set_start(&mut self, start: u32)
        requires
            old(self).wf(),
        ensures
            final(self).wf(),
            final(self).end == old(self).end,
            final(self).start == min_spec(start as int, old(self).end as int),
    {
        self.start = if start <= self.end { start } else { self.end };
    }

    /// Moves the end, clamped to lie between the start and `UNITY`.
    pub fn set_end(&mut self, end: u32)
        requires
            old(self).wf(),
        ensures
            final(self).wf(),
            final(self).start == old(self).start,
            final(self).end == (if end < old(self).start {
                old(self).start as int
            } else {
                min_spec(end as int, UNITY as int)
            }),
    {
        self.end = if end < self.start {
            self.start
        } else if end <= UNITY {
            end
        } else {
            UNITY
        };
    }

    /// The first sample index of the window in a buffer of `len` samples.
    pub open spec fn lo_spec(self, len: int) -> int {
        index_spec(self.start as int, len)
    }

    /// The sample index at which the window ends in a buffer of `len` samples.
    pub open spec fn hi_spec(self, len: int) -> int {
        index_spec(self.end as int, len)
    }

    /// The window as the sample indices `(round(start * len), round(end * len))`.
    pub fn bounds(&self, len: usize) -> (r: (usize, usize))
        requires
            self.wf(),
        ensures
            r.0 == self.lo_spec(len as int),
            r.1 == self.hi_spec(len as int),
            r.0 <= r.1 <= len,
    {
        proof {
            lemma_index_ordered(self.start as int, self.end as int, len as int);
        }
        let half: u128 = (UNITY / 2) as u128;
        let lo: u128 = ((self.start as u128) * (len as u128) + half) / (UNITY as u128);
        let hi: u128 = ((self.end as u128) * (len as u128) + half) / (UNITY as u128);
        (lo as usize, hi as usize)
    }
}

} // verus!
