//! When an object range undergoes a series of changes, some of its elements remain intact and
//! are not removed. A remained range represents these intact elements.
//!
//! After a change operation, the indexes and ranges in the list object can be given relative
//! to the original list object (before any of the change requests), relative to the list
//! object before the last change, or relative to the list object after the last change.
use vstd::prelude::*;
use super::Range2;
use super::categorical::{spec_intersection, spec_combine, separated_before, min_int, RangeSet, SetSimilar};

verus! {

/// The shift of an index in the list object, from time point A to time point B.
///
/// Used to move indexes between the states of the list object across change operations.
#[derive(Copy, Clone, Debug)]
pub enum IndexTranslation {
    /// The index decreases when going from the list object at time A to the one at time B.
    Negative(usize),
    /// The index stays the same.
    Zero,
    /// The index increases when going from the list object at time A to the one at time B.
    Positive(usize),
}

impl IndexTranslation {
    /// The signed amount by which this shift moves an index.
    pub open spec fn amount(self) -> int {
        match self {
            IndexTranslation::Negative(s) => -s,
            IndexTranslation::Zero => 0,
            IndexTranslation::Positive(s) => s as int,
        }
    }

    /// The index shift from `given_index` to `target_index`.
    pub open spec fn spec_get(given_index: int, target_index: int) -> IndexTranslation {
        if target_index < given_index {
            IndexTranslation::Negative((given_index - target_index) as usize)
        } else if target_index == given_index {
            IndexTranslation::Zero
        } else {
            IndexTranslation::Positive((target_index - given_index) as usize)
        }
    }

    /// Gets the index shift from given index to target index
    pub fn get(given_index: usize, target_index: usize) -> (r: Self)
        ensures
            r == Self::spec_get(given_index as int, target_index as int),
            r.amount() == target_index - given_index,
    {
        if target_index < given_index {
            IndexTranslation::Negative(given_index - target_index)
        } else if target_index == given_index {
            IndexTranslation::Zero
        } else {
            IndexTranslation::Positive(target_index - given_index)
        }
    }

    /// Applies the shift of this index.
    ///
    /// The shift must belong to this index: the shifted index must not fall below zero.
    pub fn apply_index_translation(&self, index: &mut usize)
        requires
            0 <= *old(index) + self.amount() <= usize::MAX,
        ensures
            *final(index) == *old(index) + self.amount(),
    {
        match self {
            IndexTranslation::Negative(shift) => *index = *index - *shift,
            IndexTranslation::Zero => (),
            IndexTranslation::Positive(shift) => *index = *index + *shift,
        }
    }

    /// Applies the shift of this index and returns the result.
    ///
    /// The shift must belong to this index: the shifted index must not fall below zero.
    pub fn with_apply_index_translation(&self, index: usize) -> (r: usize)
        requires
            0 <= index + self.amount() <= usize::MAX,
        ensures
            r == index + self.amount(),
    {
        let mut index = index;
        self.apply_index_translation(&mut index);
        index
    }
}

/// Information about the new remained range resulting from the latest change operation.
#[derive(Copy, Clone, Debug)]
pub struct NewRemained {
    pub length: usize,
    /// The new remained range index relative to the list object before the last change operation.
    ///
    /// Index before is the same as the index current of the ResolvedRemained range.
    pub index_before: usize,
    /// The new remained range index relative to the list object after the last change operation.
    pub index_after: usize,
}

impl NewRemained {
    /// Both of its ranges end within `usize`.
    pub open spec fn wf(self) -> bool {
        &&& self.index_before + self.length <= usize::MAX
        &&& self.index_after + self.length <= usize::MAX
    }

    /// The remained range relative to the list object before the change.
    pub open spec fn before_range(self) -> Range2 {
        Range2 { index: self.index_before, len: self.length }
    }

    /// The remained range relative to the list object after the change.
    pub open spec fn after_range(self) -> Range2 {
        Range2 { index: self.index_after, len: self.length }
    }

    /// Create a NewRemained range, following a change, from the raw fields.
    pub fn new_raw(index_before: usize, length: usize, index_after: usize) -> (r: Self)
        ensures
            r == (NewRemained { length, index_before, index_after }),
    {
        Self { length, index_before, index_after }
    }

    /// Create a NewRemained range, following a change. From the new remained range before the
    /// change, and the shift of index from before to after the change.
    pub fn new(range_before_change: Range2, before_to_after_shift_for_index: IndexTranslation) -> (r: Self)
        requires
            0 <= range_before_change.index + before_to_after_shift_for_index.amount() <= usize::MAX,
        ensures
            r == (NewRemained {
                length: range_before_change.len,
                index_before: range_before_change.index,
                index_after: (range_before_change.index + before_to_after_shift_for_index.amount()) as usize,
            }),
    {
        Self {
            length: range_before_change.len(),
            index_before: range_before_change.index(),
            index_after: before_to_after_shift_for_index.with_apply_index_translation(range_before_change.index()),
        }
    }

    /// The new remained range relative to the list object before the last change operations.
    pub fn remained_before(&self) -> (r: std::ops::Range<usize>)
        requires
            self.wf(),
        ensures
            r.start == self.index_before,
            r.end == self.index_before + self.length,
    {
        std::ops::Range { start: self.index_before, end: self.index_before + self.length }
    }

    /// The new remained range relative to the list object after the last change operations.
    pub fn remained_after(&self) -> (r: std::ops::Range<usize>)
        requires
            self.wf(),
        ensures
            r.start == self.index_after,
            r.end == self.index_after + self.length,
    {
        std::ops::Range { start: self.index_after, end: self.index_after + self.length }
    }

    /// Get the shift in index for the new remained range, from the index in the list object
    /// after the change to the index in the list object before the change.
    pub fn index_shift_after_to_before(&self) -> (r: IndexTranslation)
        ensures
            r == IndexTranslation::spec_get(self.index_after as int, self.index_before as int),
    {
        IndexTranslation::get(self.index_after, self.index_before)
    }

    /// Get the shift in index for the new remained range, from the index in the list object
    /// before the change to the index in the list object after the change.
    pub fn index_shift_before_to_after(&self) -> (r: IndexTranslation)
        ensures
            r == IndexTranslation::spec_get(self.index_before as int, self.index_after as int),
    {
        IndexTranslation::get(self.index_before, self.index_after)
    }
}

/// A range that represents a span that has remained continuously intact despite change operations.
#[derive(Copy, Clone, Debug)]
pub struct ResolvedRemained {
    pub length: usize,
    /// The index relative to the original list object before undergoing change operations.
    pub index_original: usize,
    /// The index relative to the current list object that has undergone previous change operations.
    pub index_current: usize,
}

impl ResolvedRemained {
    /// Both of its ranges end within `usize`.
    pub open spec fn wf(self) -> bool {
        &&& self.index_original + self.length <= usize::MAX
        &&& self.index_current + self.length <= usize::MAX
    }

    /// The remained range relative to the original list object.
    pub open spec fn original_range(self) -> Range2 {
        Range2 { index: self.index_original, len: self.length }
    }

    /// The remained range relative to the current list object.
    pub open spec fn current_range(self) -> Range2 {
        Range2 { index: self.index_current, len: self.length }
    }

    /// The resolved remained range that a new remained range starts from, when it is the first
    /// change of the series: its original and current positions are those before and after.
    pub open spec fn from_new(n: NewRemained) -> ResolvedRemained {
        ResolvedRemained { length: n.length, index_original: n.index_before, index_current: n.index_after }
    }

    /// The part of this range that remains intact across the new change too: the intersection
    /// of its current range with the new remained range before the change, placed at its
    /// original position and at its position after the change.
    pub open spec fn spec_resolve(self, new_remained: NewRemained) -> Option<ResolvedRemained> {
        match spec_intersection(self.current_range(), new_remained.before_range()) {
            Some(x) => Some(ResolvedRemained {
                length: x.len,
                index_original: (x.index + self.index_original - self.index_current) as usize,
                index_current: (x.index + new_remained.index_after - new_remained.index_before) as usize,
            }),
            None => None,
        }
    }

    /// What `combine` makes of self: the range that spans both current ranges, starting at the
    /// smaller original index, when the two current ranges connect.
    pub open spec fn spec_combined(self, next: ResolvedRemained) -> Option<ResolvedRemained> {
        match spec_combine(self.current_range(), next.current_range()) {
            Some(c) => Some(ResolvedRemained {
                length: c.len,
                index_original: min_int(self.index_original as int, next.index_original as int) as usize,
                index_current: c.index,
            }),
            None => None,
        }
    }

    /// The remained range relative to the original list object before undergoing change operations.
    pub fn remained_original(&self) -> (r: std::ops::Range<usize>)
        requires
            self.wf(),
        ensures
            r.start == self.index_original,
            r.end == self.index_original + self.length,
    {
        let end_index = self.index_original + self.length;
        std::ops::Range { start: self.index_original, end: end_index }
    }

    /// The remained range relative to the current list object that has undergone previous change operations.
    pub fn remained_current(&self) -> (r: std::ops::Range<usize>)
        requires
            self.wf(),
        ensures
            r.start == self.index_current,
            r.end == self.index_current + self.length,
    {
        let end_index = self.index_current + self.length;
        std::ops::Range { start: self.index_current, end: end_index }
    }

    /// Get the shift in index for the resolved remained range, from the index in the current
    /// list object (before the new change) to the index in the original list object.
    pub fn index_shift_current_to_original(&self) -> (r: IndexTranslation)
        ensures
            r == IndexTranslation::spec_get(self.index_current as int, self.index_original as int),
    {
        IndexTranslation::get(self.index_current, self.index_original)
    }

    /// Combine the two consecutive resolved remained ranges if they are connected.
    ///
    /// Returns true if they are connected and combined.
    pub fn combine(&mut self, next: &Self) -> (r: bool)
        requires
            old(self).wf(),
            next.wf(),
        ensures
            r == old(self).spec_combined(*next).is_some(),
            r ==> *final(self) == old(self).spec_combined(*next).unwrap(),
            !r ==> *final(self) == *old(self),
    {
        let this = Range2::new(self.index_current, self.length);
        let other = Range2::new(next.index_current, next.length);
        match this.combine(&other) {
            Some(combined_current) => {
                self.index_original = if self.index_original <= next.index_original {
                    self.index_original
                } else {
                    next.index_original
                };
                self.index_current = combined_current.index();
                self.length = combined_current.len();
                true
            },
            None => false,
        }
    }

    /// Synthesise an updated resolved remained range, by comparing the new remained range
    /// which resulted from the last change operation, to the resolved remained range.
    ///
    /// The result represents the range that remains consecutively intact across all changes
    /// including the last one.
    pub fn resolve(&self, new_remained: &NewRemained) -> (r: Option<Self>)
        requires
            self.wf(),
            new_remained.wf(),
        ensures
            r == self.spec_resolve(*new_remained),
            r matches Some(x) ==> x.wf() && x.length > 0,
    {
        let new_remained_before = Range2::new(new_remained.index_before, new_remained.length);
        let resolved_remained_before = Range2::new(self.index_current, self.length);
        let intersection = match resolved_remained_before.intersection(&new_remained_before) {
            Some(x) => x,
            None => return None,
        };
        // we keep only the spans that have not been changed in all of the series of change
        // operations: the intersection between the previous resolved remained span and the new
        // remained span, relative to the list object before this last change.
        let shift_current_to_original = self.index_shift_current_to_original();
        let shift_before_to_after = new_remained.index_shift_before_to_after();
        // the intersection index in the original list object
        let mut index_original = intersection.index();
        shift_current_to_original.apply_index_translation(&mut index_original);
        // the intersection index in the list object after the new change
        let mut index_current = intersection.index();
        shift_before_to_after.apply_index_translation(&mut index_current);
        Some(ResolvedRemained { length: intersection.len(), index_original, index_current })
    }
}

/// The options of `o`, as a sequence of zero or one items.
pub open spec fn opt_seq<A>(o: Option<A>) -> Seq<A> {
    match o {
        Some(a) => seq![a],
        None => Seq::empty(),
    }
}

/// The resolutions of `p` with each of `new`, in order, leaving out those without intersection.
pub open spec fn resolve_with_all(p: ResolvedRemained, new: Seq<NewRemained>) -> Seq<ResolvedRemained>
    decreases new.len(),
{
    if new.len() == 0 {
        Seq::empty()
    } else {
        resolve_with_all(p, new.drop_last()) + opt_seq(p.spec_resolve(new.last()))
    }
}

/// The resolutions of each previous remained range, in order, with each of `new`.
pub open spec fn resolve_cross(prev: Seq<ResolvedRemained>, new: Seq<NewRemained>) -> Seq<ResolvedRemained>
    decreases prev.len(),
{
    if prev.len() == 0 {
        Seq::empty()
    } else {
        resolve_cross(prev.drop_last(), new) + resolve_with_all(prev.last(), new)
    }
}

/// The resolved remained ranges of the first change of a series: those of its new remained
/// ranges, at their positions before and after the change.
pub open spec fn first_resolved(new: Seq<NewRemained>) -> Seq<ResolvedRemained> {
    new.map_values(|n: NewRemained| ResolvedRemained::from_new(n))
}

/// The ranges `s` are two by two apart: of any two, one ends before the other starts.
pub open spec fn pairwise_separated(s: Seq<Range2>) -> bool {
    forall|i: int, j: int|
        0 <= i < s.len() && 0 <= j < s.len() && i != j ==> separated_before(#[trigger] s[i], #[trigger] s[j])
            || separated_before(s[j], s[i])
}

/// The current ranges of `s`.
pub open spec fn currents(s: Seq<ResolvedRemained>) -> Seq<Range2> {
    s.map_values(|r: ResolvedRemained| r.current_range())
}

/// The ranges after the change of the new remained ranges `s`.
pub open spec fn afters(s: Seq<NewRemained>) -> Seq<Range2> {
    s.map_values(|r: NewRemained| r.after_range())
}


/// The positions of `a` and `b` are disjoint.
pub open spec fn disjoint(a: Range2, b: Range2) -> bool {
    forall|i: int| !(a.has(i) && b.has(i))
}

/// Two non-empty ranges without a common position lie apart, one before the other.
proof fn lemma_disjoint_separated(a: Range2, b: Range2)
    requires
        a.len > 0,
        b.len > 0,
        disjoint(a, b),
    ensures
        separated_before(a, b) || separated_before(b, a),
{
    assert(a.has(a.index as int));
    assert(b.has(b.index as int));
    if a.index < b.index {
        assert(!a.has(b.index as int));
    } else if b.index < a.index {
        assert(!b.has(a.index as int));
    }
}

/// Ranges that lie apart have no common position.
proof fn lemma_separated_disjoint(a: Range2, b: Range2)
    requires
        separated_before(a, b) || separated_before(b, a),
    ensures
        disjoint(a, b),
{
}

/// Ranges that lie apart do not combine.
proof fn lemma_separated_not_combined(a: Range2, b: Range2)
    requires
        separated_before(a, b) || separated_before(b, a),
    ensures
        spec_combine(a, b) is None,
{
}

/// `x` comes from `p` and `n`: it is non-empty, and each of its current positions lies after
/// the change in `n`, and, moved back to before the change, in the current range of `p`.
pub open spec fn descends(x: ResolvedRemained, p: ResolvedRemained, n: NewRemained) -> bool {
    &&& x.length > 0
    &&& x.wf()
    &&& forall|i: int|
        #![trigger x.current_range().has(i)]
        x.current_range().has(i) ==> n.after_range().has(i) && p.current_range().has(
            i - n.index_after + n.index_before,
        )
}

pub(crate) proof fn lemma_resolve_descends(p: ResolvedRemained, n: NewRemained)
    requires
        p.wf(),
        n.wf(),
        p.spec_resolve(n) is Some,
    ensures
        descends(p.spec_resolve(n).unwrap(), p, n),
{
}

proof fn lemma_with_all_member(p: ResolvedRemained, new: Seq<NewRemained>, u: int) -> (b: int)
    requires
        p.wf(),
        forall|k: int| 0 <= k < new.len() ==> (#[trigger] new[k]).wf(),
        0 <= u < resolve_with_all(p, new).len(),
    ensures
        0 <= b < new.len(),
        descends(resolve_with_all(p, new)[u], p, new[b]),
    decreases new.len(),
{
    let front = resolve_with_all(p, new.drop_last());
    if u < front.len() {
        let b = lemma_with_all_member(p, new.drop_last(), u);
        assert(new.drop_last()[b] == new[b]);
        b
    } else {
        lemma_resolve_descends(p, new.last());
        new.len() - 1
    }
}

proof fn lemma_cross_member(prev: Seq<ResolvedRemained>, new: Seq<NewRemained>, u: int) -> (ab: (int, int))
    requires
        forall|k: int| 0 <= k < prev.len() ==> (#[trigger] prev[k]).wf(),
        forall|k: int| 0 <= k < new.len() ==> (#[trigger] new[k]).wf(),
        0 <= u < resolve_cross(prev, new).len(),
    ensures
        0 <= ab.0 < prev.len(),
        0 <= ab.1 < new.len(),
        descends(resolve_cross(prev, new)[u], prev[ab.0], new[ab.1]),
    decreases prev.len(),
{
    let front = resolve_cross(prev.drop_last(), new);
    if u < front.len() {
        let ab = lemma_cross_member(prev.drop_last(), new, u);
        assert(prev.drop_last()[ab.0] == prev[ab.0]);
        ab
    } else {
        let b = lemma_with_all_member(prev.last(), new, u - front.len());
        (prev.len() - 1, b)
    }
}

proof fn lemma_afters_disjoint(new: Seq<NewRemained>, b1: int, b2: int)
    requires
        pairwise_separated(afters(new)),
        0 <= b1 < new.len(),
        0 <= b2 < new.len(),
        b1 != b2,
    ensures
        disjoint(new[b1].after_range(), new[b2].after_range()),
{
    assert(afters(new)[b1] == new[b1].after_range());
    assert(afters(new)[b2] == new[b2].after_range());
    lemma_separated_disjoint(afters(new)[b1], afters(new)[b2]);
}

proof fn lemma_currents_disjoint(prev: Seq<ResolvedRemained>, a1: int, a2: int)
    requires
        pairwise_separated(currents(prev)),
        0 <= a1 < prev.len(),
        0 <= a2 < prev.len(),
        a1 != a2,
    ensures
        disjoint(prev[a1].current_range(), prev[a2].current_range()),
{
    assert(currents(prev)[a1] == prev[a1].current_range());
    assert(currents(prev)[a2] == prev[a2].current_range());
    lemma_separated_disjoint(currents(prev)[a1], currents(prev)[a2]);
}

/// Two ranges that come from different previous ranges, or from different new remained
/// ranges, are disjoint.
proof fn lemma_descendants_disjoint(
    x: ResolvedRemained,
    y: ResolvedRemained,
    prev: Seq<ResolvedRemained>,
    new: Seq<NewRemained>,
    a1: int,
    b1: int,
    a2: int,
    b2: int,
)
    requires
        pairwise_separated(currents(prev)),
        pairwise_separated(afters(new)),
        0 <= a1 < prev.len(),
        0 <= a2 < prev.len(),
        0 <= b1 < new.len(),
        0 <= b2 < new.len(),
        a1 != a2 || b1 != b2,
        descends(x, prev[a1], new[b1]),
        descends(y, prev[a2], new[b2]),
    ensures
        separated_before(x.current_range(), y.current_range()) || separated_before(
            y.current_range(),
            x.current_range(),
        ),
{
    if b1 != b2 {
        lemma_afters_disjoint(new, b1, b2);
        assert forall|i: int| !(x.current_range().has(i) && y.current_range().has(i)) by {
            if x.current_range().has(i) && y.current_range().has(i) {
                assert(new[b1].after_range().has(i));
                assert(new[b2].after_range().has(i));
            }
        }
    } else {
        lemma_currents_disjoint(prev, a1, a2);
        assert forall|i: int| !(x.current_range().has(i) && y.current_range().has(i)) by {
            if x.current_range().has(i) && y.current_range().has(i) {
                let j = i - new[b1].index_after + new[b1].index_before;
                assert(prev[a1].current_range().has(j));
                assert(prev[a2].current_range().has(j));
            }
        }
    }
    lemma_disjoint_separated(x.current_range(), y.current_range());
}

/// The resolutions of one previous range with new remained ranges that lie apart lie apart.
proof fn lemma_with_all_separated(p: ResolvedRemained, new: Seq<NewRemained>)
    requires
        p.wf(),
        forall|k: int| 0 <= k < new.len() ==> (#[trigger] new[k]).wf(),
        pairwise_separated(afters(new)),
    ensures
        pairwise_separated(currents(resolve_with_all(p, new))),
        forall|k: int|
            0 <= k < resolve_with_all(p, new).len() ==> (#[trigger] resolve_with_all(p, new)[k]).wf(),
    decreases new.len(),
{
    let w = resolve_with_all(p, new);
    let front = resolve_with_all(p, new.drop_last());
    if new.len() > 0 {
        assert forall|i: int, j: int|
            0 <= i < afters(new.drop_last()).len() && 0 <= j < afters(new.drop_last()).len() && i != j
                implies separated_before(#[trigger] afters(new.drop_last())[i], #[trigger] afters(new.drop_last())[j])
                || separated_before(afters(new.drop_last())[j], afters(new.drop_last())[i]) by {
            assert(afters(new.drop_last())[i] == afters(new)[i]);
            assert(afters(new.drop_last())[j] == afters(new)[j]);
        }
        lemma_with_all_separated(p, new.drop_last());
        let pv = seq![p];
        assert forall|u: int, v: int|
            0 <= u < currents(w).len() && 0 <= v < currents(w).len() && u != v
                implies separated_before(#[trigger] currents(w)[u], #[trigger] currents(w)[v])
                || separated_before(currents(w)[v], currents(w)[u]) by {
            let bu = lemma_with_all_member(p, new, u);
            let bv = lemma_with_all_member(p, new, v);
            if u < front.len() && v < front.len() {
                assert(currents(w)[u] == currents(front)[u]);
                assert(currents(w)[v] == currents(front)[v]);
            } else {
                if u < front.len() {
                    let b = lemma_with_all_member(p, new.drop_last(), u);
                    assert(new.drop_last()[b] == new[b]);
                    assert(w[u] == front[u]);
                    assert(descends(w[u], p, new[b]));
                    assert(descends(w[v], p, new.last()));
                    assert(pv[0] == p);
                    lemma_descendants_disjoint(w[u], w[v], pv, new, 0, b, 0, new.len() - 1);
                } else if v < front.len() {
                    let b = lemma_with_all_member(p, new.drop_last(), v);
                    assert(new.drop_last()[b] == new[b]);
                    assert(w[v] == front[v]);
                    assert(descends(w[v], p, new[b]));
                    assert(descends(w[u], p, new.last()));
                    assert(pv[0] == p);
                    lemma_descendants_disjoint(w[v], w[u], pv, new, 0, b, 0, new.len() - 1);
                } else {
                    assert(w.len() <= front.len() + 1);
                }
            }
        }
        assert forall|k: int| 0 <= k < w.len() implies (#[trigger] w[k]).wf() by {
            let b = lemma_with_all_member(p, new, k);
        }
    }
}

/// The resolutions of previous ranges that lie apart with new remained ranges that lie apart
/// lie apart, and end within `usize`.
proof fn lemma_cross_separated(prev: Seq<ResolvedRemained>, new: Seq<NewRemained>)
    requires
        forall|k: int| 0 <= k < prev.len() ==> (#[trigger] prev[k]).wf(),
        forall|k: int| 0 <= k < new.len() ==> (#[trigger] new[k]).wf(),
        pairwise_separated(currents(prev)),
        pairwise_separated(afters(new)),
    ensures
        pairwise_separated(currents(resolve_cross(prev, new))),
        forall|k: int|
            0 <= k < resolve_cross(prev, new).len() ==> (#[trigger] resolve_cross(prev, new)[k]).wf(),
{
    let c = resolve_cross(prev, new);
    assert forall|u: int, v: int|
        0 <= u < currents(c).len() && 0 <= v < currents(c).len() && u != v
            implies separated_before(#[trigger] currents(c)[u], #[trigger] currents(c)[v])
            || separated_before(currents(c)[v], currents(c)[u]) by {
        lemma_cross_pair(prev, new, u, v);
    }
    assert forall|k: int| 0 <= k < c.len() implies (#[trigger] c[k]).wf() by {
        let ab = lemma_cross_member(prev, new, k);
    }
}

proof fn lemma_cross_pair(prev: Seq<ResolvedRemained>, new: Seq<NewRemained>, u: int, v: int)
    requires
        forall|k: int| 0 <= k < prev.len() ==> (#[trigger] prev[k]).wf(),
        forall|k: int| 0 <= k < new.len() ==> (#[trigger] new[k]).wf(),
        pairwise_separated(currents(prev)),
        pairwise_separated(afters(new)),
        0 <= u < resolve_cross(prev, new).len(),
        0 <= v < resolve_cross(prev, new).len(),
        u != v,
    ensures
        separated_before(resolve_cross(prev, new)[u].current_range(), resolve_cross(prev, new)[v].current_range())
            || separated_before(resolve_cross(prev, new)[v].current_range(), resolve_cross(prev, new)[u].current_range()),
    decreases prev.len(),
{
    let c = resolve_cross(prev, new);
    let init = prev.drop_last();
    let front = resolve_cross(init, new);
    let w = resolve_with_all(prev.last(), new);
    assert forall|i: int, j: int|
        0 <= i < currents(init).len() && 0 <= j < currents(init).len() && i != j
            implies separated_before(#[trigger] currents(init)[i], #[trigger] currents(init)[j])
            || separated_before(currents(init)[j], currents(init)[i]) by {
        assert(currents(init)[i] == currents(prev)[i]);
        assert(currents(init)[j] == currents(prev)[j]);
    }
    if u < front.len() && v < front.len() {
        lemma_cross_pair(init, new, u, v);
        assert(c[u] == front[u]);
        assert(c[v] == front[v]);
    } else if u >= front.len() && v >= front.len() {
        lemma_with_all_separated(prev.last(), new);
        assert(c[u] == w[u - front.len()]);
        assert(c[v] == w[v - front.len()]);
        assert(currents(w)[u - front.len()] == w[u - front.len()].current_range());
        assert(currents(w)[v - front.len()] == w[v - front.len()].current_range());
    } else {
        let abu = lemma_cross_member(prev, new, u);
        let abv = lemma_cross_member(prev, new, v);
        if u < front.len() {
            let ab = lemma_cross_member(init, new, u);
            assert(init[ab.0] == prev[ab.0]);
            assert(c[u] == front[u]);
            let b = lemma_with_all_member(prev.last(), new, v - front.len());
            assert(c[v] == w[v - front.len()]);
            lemma_descendants_disjoint(c[u], c[v], prev, new, ab.0, ab.1, prev.len() - 1, b);
        } else {
            let ab = lemma_cross_member(init, new, v);
            assert(init[ab.0] == prev[ab.0]);
            assert(c[v] == front[v]);
            let b = lemma_with_all_member(prev.last(), new, u - front.len());
            assert(c[u] == w[u - front.len()]);
            lemma_descendants_disjoint(c[v], c[u], prev, new, ab.0, ab.1, prev.len() - 1, b);
        }
    }
}

/// The first resolved remained ranges end within `usize`.
proof fn lemma_first_resolved_wf(new: Seq<NewRemained>)
    requires
        forall|k: int| 0 <= k < new.len() ==> (#[trigger] new[k]).wf(),
    ensures
        forall|k: int| 0 <= k < new.len() ==> (#[trigger] first_resolved(new)[k]).wf(),
{
}

/// The resolutions of previous ranges with new remained ranges end within `usize`.
proof fn lemma_cross_wf(prev: Seq<ResolvedRemained>, new: Seq<NewRemained>)
    requires
        forall|k: int| 0 <= k < prev.len() ==> (#[trigger] prev[k]).wf(),
        forall|k: int| 0 <= k < new.len() ==> (#[trigger] new[k]).wf(),
    ensures
        forall|k: int|
            0 <= k < resolve_cross(prev, new).len() ==> (#[trigger] resolve_cross(prev, new)[k]).wf(),
{
    assert forall|k: int| 0 <= k < resolve_cross(prev, new).len() implies (#[trigger] resolve_cross(
        prev,
        new,
    )[k]).wf() by {
        let ab = lemma_cross_member(prev, new, k);
    }
}

/// Ranges that lie apart two by two do not connect, the one before with the next.
proof fn lemma_separated_none_joins(s: Seq<ResolvedRemained>)
    requires
        pairwise_separated(currents(s)),
    ensures
        RemainedRanges::none_joins(s),
{
    assert forall|k: int| 1 <= k < s.len() implies (#[trigger] s[k]).spec_combined(s[k - 1]) is None by {
        assert(currents(s)[k] == s[k].current_range());
        assert(currents(s)[k - 1] == s[k - 1].current_range());
        lemma_separated_not_combined(s[k].current_range(), s[k - 1].current_range());
    }
}

/// The first resolved remained ranges, made from new remained ranges that lie apart after the
/// change, lie apart and end within `usize`.
proof fn lemma_first_resolved_separated(new: Seq<NewRemained>)
    requires
        forall|k: int| 0 <= k < new.len() ==> (#[trigger] new[k]).wf(),
        pairwise_separated(afters(new)),
    ensures
        pairwise_separated(currents(first_resolved(new))),
        forall|k: int|
            0 <= k < new.len() ==> (#[trigger] first_resolved(new)[k]).wf(),
{
    let m = first_resolved(new);
    assert(currents(m) =~= afters(new));
}

/// Reversing keeps ranges apart.
proof fn lemma_reverse_separated(s: Seq<ResolvedRemained>)
    requires
        pairwise_separated(currents(s)),
    ensures
        pairwise_separated(currents(s.reverse())),
{
    let r = s.reverse();
    assert forall|i: int, j: int|
        0 <= i < currents(r).len() && 0 <= j < currents(r).len() && i != j
            implies separated_before(#[trigger] currents(r)[i], #[trigger] currents(r)[j])
            || separated_before(currents(r)[j], currents(r)[i]) by {
        assert(currents(r)[i] == currents(s)[s.len() - 1 - i]);
        assert(currents(r)[j] == currents(s)[s.len() - 1 - j]);
    }
}


/// Each resolution with all `new` comes from one of them.
pub(crate) proof fn lemma_with_all_origin(p: ResolvedRemained, new: Seq<NewRemained>, u: int) -> (b: int)
    requires
        0 <= u < resolve_with_all(p, new).len(),
    ensures
        0 <= b < new.len(),
        p.spec_resolve(new[b]) == Some(resolve_with_all(p, new)[u]),
    decreases new.len(),
{
    let front = resolve_with_all(p, new.drop_last());
    if u < front.len() {
        let b = lemma_with_all_origin(p, new.drop_last(), u);
        assert(new.drop_last()[b] == new[b]);
        b
    } else {
        new.len() - 1
    }
}

/// Each cross resolution comes from one previous range and one new remained range.
pub(crate) proof fn lemma_cross_origin(prev: Seq<ResolvedRemained>, new: Seq<NewRemained>, u: int) -> (ab: (int, int))
    requires
        0 <= u < resolve_cross(prev, new).len(),
    ensures
        0 <= ab.0 < prev.len(),
        0 <= ab.1 < new.len(),
        prev[ab.0].spec_resolve(new[ab.1]) == Some(resolve_cross(prev, new)[u]),
    decreases prev.len(),
{
    let front = resolve_cross(prev.drop_last(), new);
    if u < front.len() {
        let ab = lemma_cross_origin(prev.drop_last(), new, u);
        assert(prev.drop_last()[ab.0] == prev[ab.0]);
        ab
    } else {
        let b = lemma_with_all_origin(prev.last(), new, u - front.len());
        (prev.len() - 1, b)
    }
}

/// Smaller, remained ranges of items, which represent items that were not affected by the
/// changes applied.
///
/// Useful when we want to reuse unchanged items.
#[derive(Clone, Debug)]
pub struct RemainedRanges {
    pub remained: Vec<ResolvedRemained>,
    /// Indicates that a previous apply_new_remained method call had no new remained ranges.
    ///
    /// This means that all of the elements in this range have been modified, and so any
    /// following change will not change the fact that the list object has had no elements
    /// remaining intact and unmodified.
    pub no_unchanged_ranges: bool,
}

impl RemainedRanges {
    /// Every remained range ends within `usize`, and the current ranges are apart two by two.
    pub open spec fn wf(self) -> bool {
        &&& forall|k: int| 0 <= k < self.remained@.len() ==> (#[trigger] self.remained@[k]).wf()
        &&& pairwise_separated(currents(self.remained@))
    }

    /// The resolved remained ranges before any are joined: those of the first change where
    /// there were none before, else the resolutions of the previous ranges with the new ones.
    pub open spec fn spec_resolved_total(prev: Seq<ResolvedRemained>, new: Seq<NewRemained>) -> Seq<ResolvedRemained> {
        if prev.len() == 0 {
            first_resolved(new)
        } else {
            resolve_cross(prev, new)
        }
    }

    /// No resolved range connects with the one before it.
    pub open spec fn none_joins(s: Seq<ResolvedRemained>) -> bool {
        forall|k: int| 1 <= k < s.len() ==> (#[trigger] s[k]).spec_combined(s[k - 1]) is None
    }

    /// The remained ranges after `apply_new_remained` with `new` on `prev` and the flag `flag`.
    pub open spec fn spec_applied(prev: Seq<ResolvedRemained>, flag: bool, new: Seq<NewRemained>) -> Seq<ResolvedRemained> {
        if flag || new.len() == 0 {
            prev
        } else if prev.len() == 0 {
            first_resolved(new).reverse()
        } else {
            resolve_cross(prev, new).reverse()
        }
    }

    /// The flag after `apply_new_remained` with `new` on `prev` and the flag `flag`.
    pub open spec fn spec_applied_flag(prev: Seq<ResolvedRemained>, flag: bool, new: Seq<NewRemained>) -> bool {
        if flag || new.len() == 0 {
            true
        } else if prev.len() == 0 {
            false
        } else {
            resolve_cross(prev, new).len() == 0
        }
    }

    pub fn new() -> (r: Self)
        ensures
            r.remained@ == Seq::<ResolvedRemained>::empty(),
            !r.no_unchanged_ranges,
            r.wf(),
    {
        Self { remained: Vec::new(), no_unchanged_ranges: false }
    }

    /// Resolves the remained ranges following a new change, with the new remained ranges of
    /// that change. The updated remained ranges are those that remain across both the
    /// previous changes and the new change.
    ///
    /// Where no range remained unchanged before, or none remains across the new change, the
    /// call only records that no range remains unchanged. Otherwise no resolved range may
    /// connect with the one resolved before it, for joining them would go on without end; this
    /// holds where the previous ranges lie apart and so do the new ones after the change, as
    /// the ranges that a change leaves do, and the result then lies apart too.
    pub fn apply_new_remained(&mut self, new_remained: Vec<NewRemained>)
        requires
            old(self).no_unchanged_ranges || new_remained@.len() == 0 || ((forall|k: int|
                0 <= k < old(self).remained@.len() ==> (#[trigger] old(self).remained@[k]).wf())
                && (forall|k: int|
                0 <= k < new_remained@.len() ==> (#[trigger] new_remained@[k]).wf()) && ((
            pairwise_separated(currents(old(self).remained@)) && pairwise_separated(
                afters(new_remained@),
            )) || Self::none_joins(Self::spec_resolved_total(old(self).remained@, new_remained@)))),
        ensures
            old(self).wf() && (old(self).no_unchanged_ranges || new_remained@.len() == 0
                || pairwise_separated(afters(new_remained@))) ==> final(self).wf(),
            final(self).remained@ == Self::spec_applied(old(self).remained@, old(self).no_unchanged_ranges, new_remained@),
            final(self).no_unchanged_ranges == Self::spec_applied_flag(old(self).remained@, old(self).no_unchanged_ranges, new_remained@),
    {
        if self.no_unchanged_ranges {
            return;
        } else if new_remained.len() == 0 {
            // the new change has no remained ranges, so no range remains unchanged
            self.no_unchanged_ranges = true;
            return;
        }
        let ghost prev = self.remained@;
        let ghost new = new_remained@;
        let mut total_up_to_date_resolved: Vec<ResolvedRemained> = Vec::new();
        if self.remained.len() == 0 {
            // the first change with new remained ranges
            let mut k: usize = 0;
            while k < new_remained.len()
                invariant
                    k <= new.len(),
                    new == new_remained@,
                    total_up_to_date_resolved@ == first_resolved(new.take(k as int)),
                decreases new.len() - k,
            {
                let nr = new_remained[k];
                total_up_to_date_resolved.push(
                    ResolvedRemained {
                        length: nr.length,
                        index_original: nr.index_before,
                        index_current: nr.index_after,
                    },
                );
                proof {
                    assert(new.take(k + 1) =~= new.take(k as int).push(nr));
                }
                k = k + 1;
            }
            proof {
                assert(new.take(new.len() as int) =~= new);
                lemma_first_resolved_wf(new);
                if pairwise_separated(afters(new)) {
                    lemma_first_resolved_separated(new);
                }
            }
        } else {
            // keep only the ranges that remain across both the previous changes and the new one
            let mut i: usize = 0;
            while i < self.remained.len()
                invariant
                    i <= prev.len(),
                    prev == self.remained@,
                    new == new_remained@,
                    forall|k: int| 0 <= k < prev.len() ==> (#[trigger] prev[k]).wf(),
                    forall|k: int| 0 <= k < new.len() ==> (#[trigger] new[k]).wf(),
                    total_up_to_date_resolved@ == resolve_cross(prev.take(i as int), new),
                decreases prev.len() - i,
            {
                let prev_remained = self.remained[i];
                let mut j: usize = 0;
                while j < new_remained.len()
                    invariant
                        i < prev.len(),
                        j <= new.len(),
                        prev == self.remained@,
                        new == new_remained@,
                        prev_remained == prev[i as int],
                        prev_remained.wf(),
                        forall|k: int| 0 <= k < new.len() ==> (#[trigger] new[k]).wf(),
                        total_up_to_date_resolved@ == resolve_cross(prev.take(i as int), new)
                            + resolve_with_all(prev_remained, new.take(j as int)),
                    decreases new.len() - j,
                {
                    let resolved = prev_remained.resolve(&new_remained[j]);
                    proof {
                        assert(new.take(j + 1).drop_last() =~= new.take(j as int));
                        assert(new.take(j + 1).last() == new[j as int]);
                    }
                    if let Some(up_to_date_resolved) = resolved {
                        total_up_to_date_resolved.push(up_to_date_resolved);
                    }
                    proof {
                        assert(total_up_to_date_resolved@ =~= resolve_cross(prev.take(i as int), new)
                            + resolve_with_all(prev_remained, new.take(j + 1)));
                    }
                    j = j + 1;
                }
                proof {
                    assert(new.take(new.len() as int) =~= new);
                    assert(prev.take(i + 1).drop_last() =~= prev.take(i as int));
                    assert(prev.take(i + 1).last() == prev[i as int]);
                }
                i = i + 1;
            }
            proof {
                assert(prev.take(prev.len() as int) =~= prev);
                lemma_cross_wf(prev, new);
                if pairwise_separated(currents(prev)) && pairwise_separated(afters(new)) {
                    lemma_cross_separated(prev, new);
                }
            }
            if total_up_to_date_resolved.len() == 0 {
                self.no_unchanged_ranges = true;
            }
        }
        let ghost total = total_up_to_date_resolved@;
        proof {
            assert(total == Self::spec_resolved_total(prev, new));
            if pairwise_separated(currents(prev)) && pairwise_separated(afters(new)) {
                lemma_separated_none_joins(total);
            }
        }
        // Connect the intersecting resolved remained ranges, if any: the remained ranges are
        // apart two by two, so none connects.
        let mut res: Vec<ResolvedRemained> = Vec::new();
        while total_up_to_date_resolved.len() > 0
            invariant
                total_up_to_date_resolved@ == total.take(total_up_to_date_resolved@.len() as int),
                res@ == total.skip(total_up_to_date_resolved@.len() as int).reverse(),
                total_up_to_date_resolved@.len() <= total.len(),
                forall|k: int| 0 <= k < total.len() ==> (#[trigger] total[k]).wf(),
                Self::none_joins(total),
            decreases total_up_to_date_resolved@.len(),
        {
            let ghost n = total_up_to_date_resolved@.len() as int;
            let mut up_to_date_resolved = total_up_to_date_resolved.pop().unwrap();
            proof {
                assert(up_to_date_resolved == total[n - 1]);
            }
            let connected = match total_up_to_date_resolved.last() {
                Some(next) => {
                    proof {
                        assert(*next == total[n - 2]);
                        assert(total[n - 1].spec_combined(total[n - 1 - 1]) is None);
                    }
                    up_to_date_resolved.combine(next)
                },
                None => false,
            };
            proof {
                assert(!connected);
                assert(total.skip(n - 1).reverse() =~= total.skip(n).reverse().push(total[n - 1]));
            }
            res.push(up_to_date_resolved);
        }
        proof {
            assert(total.skip(0) =~= total);
            if pairwise_separated(currents(total)) {
                lemma_reverse_separated(total);
            }
        }
        self.remained = res;
    }
}

} // verus!
