//! Which children take part in a layout.

use vstd::prelude::*;
use crate::layout::{LayoutItem, LayoutRange};

verus! {

impl LayoutItem {
    /// Whether the child does not opt out of the layout.
    pub open spec fn spec_eligible(self) -> bool {
        !(self.control is IgnoreLayout)
    }

    /// Whether the child does not opt out of the layout.
    #[verifier::when_used_as_spec(spec_eligible)]
    pub fn eligible(self) -> (r: bool)
        ensures
            r == self.spec_eligible(),
    {
        !matches!(self.control, crate::layout::LayoutControl::IgnoreLayout)
    }
}

/// How many of the first `k` children do not opt out.
pub open spec fn eligible_before(items: Seq<LayoutItem>, k: int) -> int
    decreases k,
{
    if k <= 0 {
        0
    } else {
        eligible_before(items, k - 1) + if items[k - 1].spec_eligible() {
            1int
        } else {
            0int
        }
    }
}

impl LayoutRange {
    /// The range that lets every child take part.
    pub fn all() -> (r: LayoutRange)
        ensures
            r == (LayoutRange { start: 0, count: usize::MAX }),
    {
        LayoutRange { start: 0, count: usize::MAX }
    }

    /// Whether the child that has `rank` children before it that do not opt
    /// out lies in the range.
    pub open spec fn spec_covers(self, rank: int) -> bool {
        self.start <= rank && rank - self.start < self.count
    }

    /// Whether the child that has `rank` children before it that do not opt
    /// out lies in the range.
    pub fn covers(self, rank: usize) -> (r: bool)
        ensures
            r == self.spec_covers(rank as int),
    {
        self.start <= rank && rank - self.start < self.count
    }
}

/// Whether the child at position `k` takes part: it does not opt out, and of
/// the children that do not it lies in the range.
pub open spec fn takes_part(items: Seq<LayoutItem>, range: LayoutRange, k: int) -> bool {
    items[k].spec_eligible() && range.spec_covers(eligible_before(items, k))
}

/// The positions among the first `k` children of those that take part, in
/// order.
pub open spec fn participants(items: Seq<LayoutItem>, range: LayoutRange, k: int) -> Seq<usize>
    decreases k,
{
    if k <= 0 {
        Seq::empty()
    } else {
        let rest = participants(items, range, k - 1);
        if takes_part(items, range, k - 1) {
            rest.push((k - 1) as usize)
        } else {
            rest
        }
    }
}

/// The picks are positions in the list, each after the one before, and each
/// of a child that takes part; no child that takes part is missing.
pub proof fn lemma_participants(items: Seq<LayoutItem>, range: LayoutRange, k: int)
    requires
        0 <= k <= items.len(),
        items.len() <= usize::MAX,
    ensures
        participants(items, range, k).len() <= k,
        forall|i: int|
            0 <= i < participants(items, range, k).len() ==> {
                &&& (#[trigger] participants(items, range, k)[i]) < k
                &&& takes_part(items, range, participants(items, range, k)[i] as int)
            },
        forall|i: int, j: int|
            0 <= i < j < participants(items, range, k).len() ==> participants(items, range, k)[i]
                < participants(items, range, k)[j],
        forall|p: int|
            0 <= p < k && takes_part(items, range, p) ==> participants(items, range, k).contains(
                p as usize,
            ),
    decreases k,
{
    if k > 0 {
        lemma_participants(items, range, k - 1);
        let rest = participants(items, range, k - 1);
        let full = participants(items, range, k);
        assert forall|p: int| 0 <= p < k && takes_part(items, range, p) implies full.contains(
            p as usize,
        ) by {
            if p < k - 1 {
                assert(rest.contains(p as usize));
                let i = choose|i: int| 0 <= i < rest.len() && rest[i] == p as usize;
                assert(full[i] == p as usize);
            } else {
                assert(full[full.len() - 1] == p as usize);
            }
        }
    }
}

/// The positions of the children that take part, in order.
pub fn select(items: &Vec<LayoutItem>, range: LayoutRange) -> (picks: Vec<usize>)
    ensures
        picks@ == participants(items@, range, items@.len() as int),
        forall|i: int| 0 <= i < picks@.len() ==> (#[trigger] picks@[i]) < items@.len(),
{
    let mut picks: Vec<usize> = Vec::new();
    let mut rank: usize = 0;
    let mut k: usize = 0;
    while k < items.len()
        invariant
            k <= items.len(),
            rank == eligible_before(items@, k as int),
            rank <= k,
            picks@ == participants(items@, range, k as int),
            forall|i: int| 0 <= i < picks@.len() ==> (#[trigger] picks@[i]) < k,
        decreases items.len() - k,
    {
        if items[k].eligible() {
            if range.covers(rank) {
                picks.push(k);
            }
            rank += 1;
        }
        k += 1;
    }
    picks
}

} // verus!
