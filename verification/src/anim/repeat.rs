//! Frames shown in a cycle.

use vstd::prelude::*;
use crate::fixed::{Fixed, saturate};

verus! {

/// A run through the frames `first` to `last` of a sheet, over and over,
/// each frame shown for `frame_time` seconds.
#[derive(Clone, Copy, Debug, PartialEq, Eq, Structural)]
pub struct Repeat {
    /// The first frame of the cycle.
    pub first: usize,
    /// The last frame of the cycle; a value below `first` counts as `first`.
    pub last: usize,
    /// Seconds that each frame is shown for; the cycle stands still at the
    /// first frame unless this is positive.
    pub frame_time: Fixed,
    /// Seconds into the cycle.
    pub elapsed: Fixed,
}

impl Repeat {
    /// The number of frames in the cycle.
    pub open spec fn count(self) -> int {
        if self.last >= self.first {
            self.last - self.first + 1
        } else {
            1
        }
    }

    /// The length of one cycle in millionths of a second.
    pub open spec fn period(self) -> int {
        self.count() * self.frame_time@
    }

    /// Whether the time into the cycle lies within one cycle.
    pub open spec fn wf(self) -> bool {
        0 <= self.elapsed@ && (self.frame_time@ > 0 ==> self.elapsed@ < self.period())
    }

    /// The frame shown now: the first frame plus the number of whole frame
    /// times that have passed, counted around the cycle.
    pub open spec fn spec_index(self) -> usize {
        if self.frame_time@ <= 0 || self.elapsed@ < 0 {
            self.first
        } else {
            (self.first + (self.elapsed@ / self.frame_time@) % self.count()) as usize
        }
    }

    /// The cycle after `dt` more seconds: the time grows by `dt` and wraps at
    /// the end of the cycle. A negative `dt` counts as zero, and a cycle that
    /// stands still stays as it is. A time too large to hold sticks to the
    /// upper bound.
    pub open spec fn updated(self, dt: Fixed) -> Repeat {
        if self.frame_time@ <= 0 || self.elapsed@ < 0 {
            self
        } else {
            let step = if dt@ < 0 {
                0
            } else {
                dt@
            };
            Repeat {
                elapsed: Fixed { raw: saturate((self.elapsed@ + step) % self.period()) as i64 },
                ..self
            }
        }
    }

    /// A cycle through the frames `first` to `last` that starts at the first.
    pub fn new(first: usize, last: usize, frame_time: Fixed) -> (r: Repeat)
        ensures
            r == (Repeat { first, last, frame_time, elapsed: Fixed::zero() }),
            frame_time@ > 0 ==> r.wf(),
    {
        let r = Repeat { first, last, frame_time, elapsed: Fixed::zero() };
        proof {
            if frame_time@ > 0 {
                assert(r.period() > 0) by (nonlinear_arith)
                    requires
                        r.count() >= 1,
                        r.frame_time@ > 0,
                        r.period() == r.count() * r.frame_time@,
                ;
            }
        }
        r
    }

    /// The frame shown now; see [`Repeat::spec_index`].
    #[verifier::when_used_as_spec(spec_index)]
    pub fn index(self) -> (r: usize)
        ensures
            r == self.spec_index(),
            self.first <= self.last ==> self.first <= r <= self.last,
            self.first > self.last ==> r == self.first,
    {
        if self.frame_time.raw <= 0 || self.elapsed.raw < 0 {
            return self.first;
        }
        let count: u128 = if self.last >= self.first {
            (self.last - self.first) as u128 + 1
        } else {
            1
        };
        let steps: u128 = (self.elapsed.raw as u128) / (self.frame_time.raw as u128);
        let turn: u128 = steps % count;
        self.first + (turn as usize)
    }

    /// Lets `dt` seconds pass; see [`Repeat::updated`].
    pub fn update(&mut self, dt: Fixed)
        ensures
            *final(self) == old(self).updated(dt),
            old(self).wf() ==> final(self).wf(),
    {
        if self.frame_time.raw <= 0 || self.elapsed.raw < 0 {
            return ;
        }
        let count: u128 = if self.last >= self.first {
            (self.last - self.first) as u128 + 1
        } else {
            1
        };
        let frame: u128 = self.frame_time.raw as u128;
        assert(1 <= count * frame <= 0x1_0000_0000_0000_0000 * 0x7fff_ffff_ffff_ffff)
            by (nonlinear_arith)
            requires
                1 <= count <= 0x1_0000_0000_0000_0000,
                1 <= frame <= 0x7fff_ffff_ffff_ffff,
        ;
        let period: u128 = count * frame;
        let step: u128 = if dt.raw < 0 {
            0
        } else {
            dt.raw as u128
        };
        let total: u128 = self.elapsed.raw as u128 + step;
        let wrapped: u128 = total % period;
        proof {
            vstd::arithmetic::div_mod::lemma_mod_bound(total as int, period as int);
        }
        if wrapped <= 0x7fff_ffff_ffff_ffff {
            self.elapsed = Fixed { raw: wrapped as i64 };
        } else {
            self.elapsed = Fixed { raw: crate::fixed::RAW_MAX };
        }
    }
}

} // verus!
