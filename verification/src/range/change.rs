//! Events or changes that occur to a ranged span of a larger list of items.
//!
//! The change requests are applied on the object range, and the final resulting range
//! represents the new object range. A series of change operations can be applied to an object
//! range, called the original object range.
//!
//! A [`ChangeSessionSummary`] can be used by the list objects to synchronize their items
//! following the occurence of changes.
use vstd::prelude::*;
use super::Range2;
use super::remained::{
    IndexTranslation, NewRemained, RemainedRanges, ResolvedRemained, pairwise_separated, afters,
};
use super::categorical::separated_before;

verus! {

/// The direction of the change that happened to the range of elements.
#[derive(Copy, Clone, Debug)]
pub enum ChangeDirection {
    /// To the end. Start to end forward direction.
    ///
    /// In case of a shift in the forward direction, the additions are at the end of the list
    /// items, and the removals are from the start.
    End,
    /// To the start. End to start reverse/backward direction.
    ///
    /// In case of a shift in the reverse direction, the additions are at the start of the list
    /// items, and the removals are from the end.
    Start,
}

/// The kind of the change
#[derive(Copy, Clone, Debug)]
pub enum ChangeKind {
    /// A shift change: the range moves towards the end or the start of the larger list, and
    /// then covers different items of it. The length of the shift can be more than the length
    /// of the range.
    Shift,
    Add,
    Remove,
}

/// A change on the list object, or on an object range within the object.
#[derive(Copy, Clone, Debug)]
pub enum Change {
    /// A shift change. The range moves to the direction of the end or the start by the length
    /// of the shift, and covers different items of the greater list. The list itself does not
    /// change.
    ///
    /// The length of the shift can be more than the length of this range, but it must not push
    /// the index of the range below zero.
    Shift { len: usize, direction: ChangeDirection },
    /// Items are added to the list object at the index.
    Add { index: usize, len: usize },
    /// Items are removed from the list object, starting at the index.
    Remove { index: usize, len: usize },
}

impl Change {
    pub fn shift(len: usize, direction: ChangeDirection) -> (r: Self)
        ensures
            r == (Change::Shift { len, direction }),
    {
        Self::Shift { len, direction }
    }

    pub fn add(index: usize, len: usize) -> (r: Self)
        ensures
            r == (Change::Add { index, len }),
    {
        Self::Add { index, len }
    }

    pub fn remove(index: usize, len: usize) -> (r: Self)
        ensures
            r == (Change::Remove { index, len }),
    {
        Self::Remove { index, len }
    }

    /// Where the item at position `p` of the list object before this change stands after it:
    /// a shift leaves the list as it is, an addition moves the items at and after its index
    /// forward by its length, and a removal takes out the items it spans and moves the items
    /// after them backward by its length.
    pub open spec fn position_after(self, p: int) -> Option<int> {
        match self {
            Change::Shift { .. } => Some(p),
            Change::Add { index, len } => if p < index { Some(p) } else { Some(p + len) },
            Change::Remove { index, len } => if p < index {
                Some(p)
            } else if p < index + len {
                None
            } else {
                Some(p - len)
            },
        }
    }
}

/// Information about the change event that occured on the object range.
#[derive(Copy, Clone, Debug)]
pub enum ChangeInfo {
    /// An add event: the index is the position of the addition, and the length is the length
    /// of the added items.
    Add(Range2),
    /// A remove event: the index is the start of the items removed in this object range, and
    /// the length is the length of the items removed.
    Remove(Range2),
}

/// Summary of the change(s) that occured in a change session: the change events that occured
/// in the object range, and the remained spans of elements that were not affected by the
/// changes.
#[derive(Clone, Debug)]
pub struct ChangeSessionSummary {
    /// Smaller, remained ranges of items, which represent items that were not affected by the
    /// changes applied. The original indexes are those before the series of changes.
    pub remained: RemainedRanges,
    /// The sorted list of events that occured on the object range.
    pub events: Vec<ChangeInfo>,
}

impl ChangeSessionSummary {
    /// Create a new empty ChangeSessionSummary
    pub fn new() -> (r: Self)
        ensures
            r.remained.remained@ == Seq::<ResolvedRemained>::empty(),
            !r.remained.no_unchanged_ranges,
            r.events@ == Seq::<ChangeInfo>::empty(),
            r.remained.wf(),
    {
        Self { remained: RemainedRanges::new(), events: Vec::new() }
    }

    pub fn remained(&self) -> (r: &Vec<ResolvedRemained>)
        ensures
            r@ == self.remained.remained@,
    {
        &self.remained.remained
    }

    pub fn events(&self) -> (r: &Vec<ChangeInfo>)
        ensures
            r@ == self.events@,
    {
        &self.events
    }
}

/// A series of change requests to be applied consecutively on a list object.
///
/// The list object that is yet to have these changes applied to is called the original list
/// object.
#[derive(Clone, Debug)]
pub struct ChangeRequests {
    pub requests: Vec<Change>,
}

impl From<Vec<Change>> for ChangeRequests {
    fn from(requests: Vec<Change>) -> (r: Self) {
        Self { requests }
    }
}

impl vstd::std_specs::convert::FromSpecImpl<Vec<Change>> for ChangeRequests {
    open spec fn obeys_from_spec() -> bool {
        true
    }

    open spec fn from_spec(v: Vec<Change>) -> ChangeRequests {
        ChangeRequests { requests: v }
    }
}


/// The new remained range of the items of `r`, which move by `amount` with the change.
pub open spec fn remained_piece(r: Range2, amount: int) -> NewRemained {
    NewRemained { length: r.len, index_before: r.index, index_after: (r.index + amount) as usize }
}

impl Range2 {
    /// The addition can be applied to self: the ranges end within `usize`, and so does self
    /// when the addition grows or moves it.
    pub open spec fn addition_fits(self, a: Range2) -> bool {
        &&& self.wf()
        &&& a.wf()
        &&& (self.index < a.index && a.index >= self.spec_end()) || self.spec_end() + a.len <= usize::MAX
    }

    /// The range after the addition `a`: an addition inside it, or at its start, grows it; an
    /// addition before it moves it forward; an addition at or after its end leaves it.
    pub open spec fn added(self, a: Range2) -> Range2 {
        if self.index < a.index {
            if a.index < self.spec_end() {
                Range2 { index: self.index, len: (self.len + a.len) as usize }
            } else {
                self
            }
        } else if self.index == a.index {
            Range2 { index: self.index, len: (self.len + a.len) as usize }
        } else {
            Range2 { index: (self.index + a.len) as usize, len: self.len }
        }
    }

    /// The items of self that remain intact across the addition `a`.
    pub open spec fn addition_remained(self, a: Range2) -> Seq<NewRemained> {
        if self.index < a.index {
            if a.index < self.spec_end() {
                seq![
                    remained_piece(Range2::spec_from_bounds(self.index as int, a.index as int), 0),
                    remained_piece(Range2::spec_from_bounds(a.index as int, self.spec_end()), a.len as int),
                ]
            } else {
                seq![remained_piece(self, 0)]
            }
        } else {
            seq![remained_piece(self, a.len as int)]
        }
    }

    /// The removal can be applied to self: both ranges end within `usize`.
    pub open spec fn removal_fits(self, r: Range2) -> bool {
        self.wf() && r.wf()
    }

    /// The range after the removal `r`: it loses the items that the removal spans, and moves
    /// backward by the removed items before it.
    pub open spec fn removed(self, r: Range2) -> Range2 {
        if self.index < r.index {
            if r.index < self.spec_end() {
                if self.spec_end() <= r.spec_end() {
                    Range2::spec_from_bounds(self.index as int, r.index as int)
                } else {
                    Range2 { index: self.index, len: (self.len - r.len) as usize }
                }
            } else {
                self
            }
        } else if self.index == r.index {
            if self.spec_end() <= r.spec_end() {
                Range2 { index: self.index, len: 0 }
            } else {
                Range2 { index: self.index, len: (self.len - r.len) as usize }
            }
        } else {
            if self.spec_end() <= r.spec_end() {
                Range2 { index: r.index, len: 0 }
            } else if self.index < r.spec_end() {
                Range2::spec_from_bounds(r.index as int, r.index + self.spec_end() - r.spec_end())
            } else {
                Range2 { index: (self.index - r.len) as usize, len: self.len }
            }
        }
    }

    /// The items of self that remain intact across the removal `r`.
    pub open spec fn removal_remained(self, r: Range2) -> Seq<NewRemained> {
        let before = Range2::spec_from_bounds(self.index as int, r.index as int);
        let after = Range2::spec_from_bounds(r.spec_end(), self.spec_end());
        if self.index < r.index {
            if r.index < self.spec_end() {
                if self.spec_end() <= r.spec_end() {
                    seq![remained_piece(before, 0)]
                } else {
                    seq![remained_piece(before, 0), remained_piece(after, -r.len)]
                }
            } else {
                seq![remained_piece(self, 0)]
            }
        } else if self.spec_end() <= r.spec_end() {
            Seq::empty()
        } else if self.index <= r.spec_end() {
            seq![remained_piece(after, -r.len)]
        } else {
            seq![remained_piece(self, -r.len)]
        }
    }

    /// The shift can be applied to self: self ends within `usize` before and after it, and a
    /// shift towards the start does not move it below zero.
    pub open spec fn shift_fits(self, len: usize, direction: ChangeDirection) -> bool {
        &&& self.wf()
        &&& match direction {
            ChangeDirection::End => self.spec_end() + len <= usize::MAX,
            ChangeDirection::Start => len <= self.index,
        }
    }

    /// The range after the shift: it moves by the length of the shift.
    pub open spec fn shifted(self, len: usize, direction: ChangeDirection) -> Range2 {
        match direction {
            ChangeDirection::End => Range2 { index: (self.index + len) as usize, len: self.len },
            ChangeDirection::Start => Range2 { index: (self.index - len) as usize, len: self.len },
        }
    }

    /// The items of self that it still covers after the shift.
    pub open spec fn shift_remained(self, len: usize, direction: ChangeDirection) -> Seq<NewRemained> {
        if self.len > len {
            match direction {
                ChangeDirection::End => seq![
                    remained_piece(Range2 { index: (self.index + len) as usize, len: (self.len - len) as usize }, 0),
                ],
                ChangeDirection::Start => seq![
                    remained_piece(Range2 { index: self.index, len: (self.len - len) as usize }, 0),
                ],
            }
        } else {
            Seq::empty()
        }
    }

    /// The change can be applied to self.
    pub open spec fn change_fits(self, change: Change) -> bool {
        match change {
            Change::Shift { len, direction } => self.shift_fits(len, direction),
            Change::Add { index, len } => self.addition_fits(Range2 { index, len }),
            Change::Remove { index, len } => self.removal_fits(Range2 { index, len }),
        }
    }

    /// The range after the change.
    pub open spec fn changed(self, change: Change) -> Range2 {
        match change {
            Change::Shift { len, direction } => self.shifted(len, direction),
            Change::Add { index, len } => self.added(Range2 { index, len }),
            Change::Remove { index, len } => self.removed(Range2 { index, len }),
        }
    }

    /// The event of a removal on self: the items of self that it removes, by their start and
    /// their count, where it removes any.
    pub open spec fn removal_events(self, r: Range2) -> Seq<ChangeInfo> {
        let start = if self.index < r.index {
            r.index
        } else {
            self.index
        };
        let end = if self.spec_end() < r.spec_end() {
            self.spec_end()
        } else {
            r.spec_end()
        };
        if start < end {
            seq![ChangeInfo::Remove(Range2 { index: start, len: (end - start) as usize })]
        } else {
            Seq::empty()
        }
    }

    /// The events that the change records on self: a removal's, where it removes items of
    /// self.
    pub open spec fn change_events(self, change: Change) -> Seq<ChangeInfo> {
        match change {
            Change::Remove { index, len } => self.removal_events(Range2 { index, len }),
            _ => Seq::empty(),
        }
    }

    /// The items of self that remain intact across the change.
    pub open spec fn change_remained(self, change: Change) -> Seq<NewRemained> {
        match change {
            Change::Shift { len, direction } => self.shift_remained(len, direction),
            Change::Add { index, len } => self.addition_remained(Range2 { index, len }),
            Change::Remove { index, len } => self.removal_remained(Range2 { index, len }),
        }
    }

    /// The change at the edge of self: on its end side, at the change length before its end;
    /// on its start side, at zero.
    pub open spec fn edge_change_of(self, kind: ChangeKind, side_direction: ChangeDirection, change_len: usize) -> Change {
        let index = match side_direction {
            ChangeDirection::End => (self.spec_end() - change_len) as usize,
            ChangeDirection::Start => 0usize,
        };
        match kind {
            ChangeKind::Shift => Change::Shift { len: change_len, direction: side_direction },
            ChangeKind::Add => Change::Add { index, len: change_len },
            ChangeKind::Remove => Change::Remove { index, len: change_len },
        }
    }

    /// The edge change can be applied to self.
    pub open spec fn edge_change_fits(self, kind: ChangeKind, side_direction: ChangeDirection, change_len: usize) -> bool {
        &&& self.wf()
        &&& (side_direction is End ==> change_len <= self.spec_end())
        &&& self.change_fits(self.edge_change_of(kind, side_direction, change_len))
    }
}

/// The summary after recording the items that remain intact across a change, and the events
/// of the change.
pub open spec fn summary_after(
    summary: ChangeSessionSummary,
    new: Seq<NewRemained>,
    events: Seq<ChangeInfo>,
    result: ChangeSessionSummary,
) -> bool {
    &&& result.remained.remained@ == RemainedRanges::spec_applied(
        summary.remained.remained@,
        summary.remained.no_unchanged_ranges,
        new,
    )
    &&& result.remained.no_unchanged_ranges == RemainedRanges::spec_applied_flag(
        summary.remained.remained@,
        summary.remained.no_unchanged_ranges,
        new,
    )
    &&& result.events@ == summary.events@ + events
    &&& result.remained.wf()
}

/// The summary that a new, empty summary becomes after recording the items that remain intact
/// across a change, and the events of the change.
pub open spec fn new_summary_after(
    new: Seq<NewRemained>,
    events: Seq<ChangeInfo>,
    result: ChangeSessionSummary,
) -> bool {
    &&& result.remained.remained@ == RemainedRanges::spec_applied(Seq::empty(), false, new)
    &&& result.remained.no_unchanged_ranges == RemainedRanges::spec_applied_flag(Seq::empty(), false, new)
    &&& result.events@ == events
    &&& result.remained.wf()
}

/// The new remained ranges of a change end within `usize` and lie apart after the change.
pub(crate) proof fn lemma_change_remained_fit(s: Range2, c: Change)
    requires
        s.change_fits(c),
    ensures
        forall|k: int|
            0 <= k < s.change_remained(c).len() ==> (#[trigger] s.change_remained(c)[k]).wf(),
        pairwise_separated(afters(s.change_remained(c))),
{
    let p = s.change_remained(c);
    assert forall|i: int, j: int|
        0 <= i < afters(p).len() && 0 <= j < afters(p).len() && i != j
            implies separated_before(#[trigger] afters(p)[i], #[trigger] afters(p)[j])
            || separated_before(afters(p)[j], afters(p)[i]) by {
        assert(afters(p)[i] == p[i].after_range());
        assert(afters(p)[j] == p[j].after_range());
    }
}

/// A trait to handle a continuous series of changes that occur in a list object, where Self
/// is a range in this object.
///
/// The summary type records information about the change results, mostly to help manage the
/// synchronisation of the list object before and after the change requests are applied.
pub trait RangeChangeCont: Sized {
    /// A summary type
    type Summary;

    /// The addition can be applied to self.
    spec fn can_add(&self, addition_range: &Self) -> bool;

    /// The removal can be applied to self.
    spec fn can_remove(&self, removal_range: &Self) -> bool;

    /// The edge change can be applied to self.
    spec fn can_edge_change(&self, kind: ChangeKind, side_direction: ChangeDirection, change_len: usize) -> bool;

    /// The change can be applied to self.
    spec fn can_change(&self, change: &Change) -> bool;

    /// The summary can record a further change.
    spec fn summary_ready(summary: &Self::Summary) -> bool;

    /// An addition change, as part of a continuous series of changes
    ///
    /// Transforms the length and index of this range based on the addition operation applied
    fn add_cont(&mut self, addition_range: &Self, summary: &mut Self::Summary)
        requires
            old(self).can_add(addition_range),
            Self::summary_ready(old(summary)),
    ;

    /// A removal change, as part of a continuous series of changes
    ///
    /// Transforms the length and index of this range based on the removal operation applied,
    /// and records the ranges that did not undergo removal, in their indexes prior to removal.
    fn remove_cont(&mut self, removal_range: &Self, summary: &mut Self::Summary)
        requires
            old(self).can_remove(removal_range),
            Self::summary_ready(old(summary)),
    ;

    /// A change that occurs at the edge, as part of a continuous series of changes
    fn edge_change_cont(
        &mut self,
        kind: ChangeKind,
        side_direction: ChangeDirection,
        change_len: usize,
        summary: &mut Self::Summary,
    )
        requires
            old(self).can_edge_change(kind, side_direction, change_len),
            Self::summary_ready(old(summary)),
    ;

    /// A general change, as part of a continuous series of changes
    fn change_cont(&mut self, change: &Change, summary: &mut Self::Summary)
        requires
            old(self).can_change(change),
            Self::summary_ready(old(summary)),
    ;
}

/// A trait to handle change that occurs in a list object, where Self is an object range in
/// this object.
pub trait RangeChange: RangeChangeCont {
    /// An addition change
    ///
    /// Transforms the length and index of this range based on the addition operation applied
    fn add(&mut self, addition_range: &Self) -> Self::Summary
        requires
            old(self).can_add(addition_range),
    ;

    /// A removal change
    ///
    /// Transforms the length and index of this range based on the removal operation applied,
    /// and returns the range(s) that did not undergo removal, in the original indexes prior to
    /// removal. If there are no remaining range(s), the range(s) returned will be empty.
    fn remove(&mut self, removal_range: &Self) -> Self::Summary
        requires
            old(self).can_remove(removal_range),
    ;

    /// A change that occurs at the edge
    fn edge_change(&mut self, kind: ChangeKind, side_direction: ChangeDirection, change_len: usize) -> Self::Summary
        requires
            old(self).can_edge_change(kind, side_direction, change_len),
    ;

    /// A general change
    fn change(&mut self, change: &Change) -> Self::Summary
        requires
            old(self).can_change(change),
    ;
}

impl RangeChangeCont for Range2 {
    type Summary = ChangeSessionSummary;

    open spec fn can_add(&self, addition_range: &Self) -> bool {
        self.addition_fits(*addition_range)
    }

    open spec fn can_remove(&self, removal_range: &Self) -> bool {
        self.removal_fits(*removal_range)
    }

    open spec fn can_edge_change(&self, kind: ChangeKind, side_direction: ChangeDirection, change_len: usize) -> bool {
        self.edge_change_fits(kind, side_direction, change_len)
    }

    open spec fn can_change(&self, change: &Change) -> bool {
        self.change_fits(*change)
    }

    open spec fn summary_ready(summary: &ChangeSessionSummary) -> bool {
        summary.remained.wf()
    }

    fn add_cont(&mut self, addition_range: &Self, summary: &mut Self::Summary)
        ensures
            *final(self) == old(self).added(*addition_range),
            summary_after(
                *old(summary),
                old(self).addition_remained(*addition_range),
                Seq::empty(),
                *final(summary),
            ),
    {
        proof {
            lemma_change_remained_fit(*old(self), Change::Add { index: addition_range.index, len: addition_range.len });
        }
        let mut new_remained_ranges: Vec<NewRemained> = Vec::new();
        let si = self.index();
        let se = self.end_index();
        let ai = addition_range.index();
        // Note that X is the addition index
        if si < ai {
            if ai < se {
                // | _ _ _ + + + + + _ _ _
                // |           X
                // the remaining from the start
                new_remained_ranges.push(NewRemained::new(Range2::from_bounds(si, ai), IndexTranslation::Zero));
                // the remaining from the end, shifted to the end by the length of the added elements
                new_remained_ranges.push(
                    NewRemained::new(Range2::from_bounds(ai, se), IndexTranslation::Positive(addition_range.len())),
                );
                // new self
                let new_len = self.len() + addition_range.len();
                *self = Range2::from_bounds(si, si + new_len);
            } else {
                // | _ _ _ + + + + + _ _ _
                // |               X
                // the addition is at or after the end: everything remained in place
                new_remained_ranges.push(NewRemained::new(*self, IndexTranslation::Zero));
            }
        } else if si == ai {
            // | _ _ _ + + + + + _ _ _
            // |       X
            // everything remained, shifted to the end by the length of the added elements
            new_remained_ranges.push(NewRemained::new(*self, IndexTranslation::Positive(addition_range.len())));
            let new_len = self.len() + addition_range.len();
            *self = Range2::from_bounds(si, si + new_len);
        } else {
            // | _ _ _ + + + + + _ _ _
            // |     X
            // everything remained, shifted to the end by the length of the added elements
            new_remained_ranges.push(NewRemained::new(*self, IndexTranslation::Positive(addition_range.len())));
            let new_index = si + addition_range.len();
            *self = Range2::new(new_index, self.len());
        }
        proof {
            assert(new_remained_ranges@ =~= old(self).addition_remained(*addition_range));
        }
        summary.remained.apply_new_remained(new_remained_ranges);
    }

    fn remove_cont(&mut self, removal_range: &Self, summary: &mut Self::Summary)
        ensures
            *final(self) == old(self).removed(*removal_range),
            summary_after(
                *old(summary),
                old(self).removal_remained(*removal_range),
                old(self).removal_events(*removal_range),
                *final(summary),
            ),
    {
        proof {
            lemma_change_remained_fit(*old(self), Change::Remove { index: removal_range.index, len: removal_range.len });
        }
        let mut new_remained_ranges: Vec<NewRemained> = Vec::new();
        let si = self.index();
        let se = self.end_index();
        let ri = removal_range.index();
        let re = removal_range.end_index();
        let rlen = removal_range.len();
        // the remaining calculations take into the account the
        // initial indexes, before applying the removal
        if si < ri {
            if ri < se {
                if se <= re {
                    // | _ _ _ + + + + + _ _ _
                    // |           X + + +
                    // the remaining from the start
                    new_remained_ranges.push(NewRemained::new(Range2::from_bounds(si, ri), IndexTranslation::Zero));
                    *self = Range2::from_bounds(si, ri);
                } else {
                    // | _ _ _ + + + + + _ _ _
                    // |           X +
                    // the remaining from the start
                    new_remained_ranges.push(NewRemained::new(Range2::from_bounds(si, ri), IndexTranslation::Zero));
                    // the remaining from the end, shifted to the start by the removed length
                    new_remained_ranges.push(NewRemained::new(Range2::from_bounds(re, se), IndexTranslation::Negative(rlen)));
                    let new_len = self.len() - rlen;
                    *self = Range2::from_bounds(si, si + new_len);
                }
            } else {
                // | _ _ _ + + + + + _ _ _
                // |                 X + +
                // the removal is at or after the end: everything remained in place
                new_remained_ranges.push(NewRemained::new(*self, IndexTranslation::Zero));
            }
        } else if si == ri {
            if se <= re {
                // | _ _ _ + + + + + _ _ _
                // |       X + + + + + +
                self.set_caret(si);
            } else {
                // | _ _ _ + + + + + _ _ _
                // |       X + +
                // the remaining from the end, shifted to the start by the removed length
                new_remained_ranges.push(NewRemained::new(Range2::from_bounds(re, se), IndexTranslation::Negative(rlen)));
                let new_len = self.len() - rlen;
                *self = Range2::from_bounds(si, si + new_len);
            }
        } else {
            if se <= re {
                // | _ _ _ + + + + + _ _ _
                // |     X + + + + + +
                self.set_caret(ri);
            } else if si < re {
                // | _ _ _ _ + + + + + _ _ _
                // |       X + +
                // the remaining from the end, which holds no removed element
                new_remained_ranges.push(NewRemained::new(Range2::from_bounds(re, se), IndexTranslation::Negative(rlen)));
                // the index reverts to the removal index, and the length keeps the items of
                // self that were not removed
                let new_len = se - re;
                *self = Range2::from_bounds(ri, ri + new_len);
            } else if si == re {
                // | _ _ _ _ + + + + + _ _ _
                // |     X + +
                new_remained_ranges.push(NewRemained::new(Range2::from_bounds(re, se), IndexTranslation::Negative(rlen)));
                self.set_index(si - rlen);
            } else {
                // | _ _ _ _ + + + + + _ _ _
                // |   X + +
                new_remained_ranges.push(NewRemained::new(*self, IndexTranslation::Negative(rlen)));
                self.set_index(si - rlen);
            }
        }
        proof {
            assert(new_remained_ranges@ =~= old(self).removal_remained(*removal_range));
        }
        summary.remained.apply_new_remained(new_remained_ranges);
        // the event: the items of self that were removed
        let removed_start = if si < ri {
            ri
        } else {
            si
        };
        let removed_end = if se < re {
            se
        } else {
            re
        };
        assert(summary.events@ == old(summary).events@);
        if removed_start < removed_end {
            let removed = Range2::from_bounds(removed_start, removed_end);
            assert(removed == Range2 { index: removed_start, len: (removed_end - removed_start) as usize });
            summary.events.push(ChangeInfo::Remove(removed));
            assert(summary.events@ =~= old(summary).events@ + old(self).removal_events(*removal_range));
        } else {
            assert(summary.events@ =~= old(summary).events@ + old(self).removal_events(*removal_range));
        }
    }

    fn edge_change_cont(
        &mut self,
        kind: ChangeKind,
        side_direction: ChangeDirection,
        change_len: usize,
        summary: &mut Self::Summary,
    )
        ensures
            *final(self) == old(self).changed(old(self).edge_change_of(kind, side_direction, change_len)),
            summary_after(
                *old(summary),
                old(self).change_remained(old(self).edge_change_of(kind, side_direction, change_len)),
                old(self).change_events(old(self).edge_change_of(kind, side_direction, change_len)),
                *final(summary),
            ),
    {
        let index = match side_direction {
            ChangeDirection::End => self.end_index() - change_len,
            ChangeDirection::Start => 0,
        };
        let change = match kind {
            ChangeKind::Shift => Change::shift(change_len, side_direction),
            ChangeKind::Add => Change::add(index, change_len),
            ChangeKind::Remove => Change::remove(index, change_len),
        };
        self.change_cont(&change, summary)
    }

    fn change_cont(&mut self, change: &Change, summary: &mut Self::Summary)
        ensures
            *final(self) == old(self).changed(*change),
            summary_after(
                *old(summary),
                old(self).change_remained(*change),
                old(self).change_events(*change),
                *final(summary),
            ),
    {
        match change {
            Change::Shift { len, direction } => {
                proof {
                    lemma_change_remained_fit(*old(self), *change);
                }
                let mut new_remained_ranges: Vec<NewRemained> = Vec::new();
                match direction {
                    ChangeDirection::End => {
                        // . . . * * * * . . . . .
                        // . . . . . * * * * . . .
                        if self.len() > *len {
                            // the remaining from the end
                            let remained_len = self.len() - *len;
                            new_remained_ranges.push(
                                NewRemained::new(Range2::new(self.index() + *len, remained_len), IndexTranslation::Zero),
                            );
                        }
                        // the range moves towards the end, so the removal happens at its start
                        self.set_index(self.index() + *len);
                    },
                    ChangeDirection::Start => {
                        // . . . . . * * * * . . .
                        // . . . * * * * . . . . .
                        if self.len() > *len {
                            // the remaining from the start
                            let remained_len = self.len() - *len;
                            new_remained_ranges.push(
                                NewRemained::new(Range2::new(self.index(), remained_len), IndexTranslation::Zero),
                            );
                        }
                        // the range moves towards the start, so the removal happens at its end
                        self.set_index(self.index() - *len);
                    },
                }
                proof {
                    assert(new_remained_ranges@ =~= old(self).change_remained(*change));
                }
                summary.remained.apply_new_remained(new_remained_ranges);
            },
            Change::Add { index, len } => {
                let addition_range = Range2::new(*index, *len);
                self.add_cont(&addition_range, summary);
            },
            Change::Remove { index, len } => {
                let removal_range = Range2::new(*index, *len);
                self.remove_cont(&removal_range, summary);
            },
        }
    }
}

impl RangeChange for Range2 {
    fn add(&mut self, addition_range: &Self) -> (r: Self::Summary)
        ensures
            *final(self) == old(self).added(*addition_range),
            new_summary_after(old(self).addition_remained(*addition_range), Seq::empty(), r),
    {
        let mut sum = ChangeSessionSummary::new();
        self.add_cont(addition_range, &mut sum);
        sum
    }

    fn remove(&mut self, removal_range: &Self) -> (r: Self::Summary)
        ensures
            *final(self) == old(self).removed(*removal_range),
            new_summary_after(
                old(self).removal_remained(*removal_range),
                old(self).removal_events(*removal_range),
                r,
            ),
    {
        let mut sum = ChangeSessionSummary::new();
        self.remove_cont(removal_range, &mut sum);
        sum
    }

    fn edge_change(&mut self, kind: ChangeKind, side_direction: ChangeDirection, change_len: usize) -> (r: Self::Summary)
        ensures
            *final(self) == old(self).changed(old(self).edge_change_of(kind, side_direction, change_len)),
            new_summary_after(
                old(self).change_remained(old(self).edge_change_of(kind, side_direction, change_len)),
                old(self).change_events(old(self).edge_change_of(kind, side_direction, change_len)),
                r,
            ),
    {
        let mut sum = ChangeSessionSummary::new();
        self.edge_change_cont(kind, side_direction, change_len, &mut sum);
        sum
    }

    fn change(&mut self, change: &Change) -> (r: Self::Summary)
        ensures
            *final(self) == old(self).changed(*change),
            new_summary_after(old(self).change_remained(*change), old(self).change_events(*change), r),
    {
        let mut sum = ChangeSessionSummary::new();
        self.change_cont(change, &mut sum);
        sum
    }
}


/// The range after the changes `cs`, applied one after the other.
pub open spec fn series_changed(r: Range2, cs: Seq<Change>) -> Range2
    decreases cs.len(),
{
    if cs.len() == 0 {
        r
    } else {
        series_changed(r, cs.drop_last()).changed(cs.last())
    }
}

/// Each of the changes `cs` can be applied to the range that the ones before it produce.
pub open spec fn series_fits(r: Range2, cs: Seq<Change>) -> bool
    decreases cs.len(),
{
    if cs.len() == 0 {
        true
    } else {
        series_fits(r, cs.drop_last()) && series_changed(r, cs.drop_last()).change_fits(cs.last())
    }
}

/// The remained ranges and the flag of a summary that starts as `remained` and `flag` and
/// records the changes `cs` applied one after the other to the range `r`.
pub open spec fn series_summary(
    r: Range2,
    remained: Seq<ResolvedRemained>,
    flag: bool,
    cs: Seq<Change>,
) -> (Seq<ResolvedRemained>, bool)
    decreases cs.len(),
{
    if cs.len() == 0 {
        (remained, flag)
    } else {
        let (p, f) = series_summary(r, remained, flag, cs.drop_last());
        let pieces = series_changed(r, cs.drop_last()).change_remained(cs.last());
        (RemainedRanges::spec_applied(p, f, pieces), RemainedRanges::spec_applied_flag(p, f, pieces))
    }
}

/// The events that the changes `cs`, applied one after the other to `r`, record, in order.
pub open spec fn series_events(r: Range2, cs: Seq<Change>) -> Seq<ChangeInfo>
    decreases cs.len(),
{
    if cs.len() == 0 {
        Seq::empty()
    } else {
        series_events(r, cs.drop_last()) + series_changed(r, cs.drop_last()).change_events(cs.last())
    }
}

impl ChangeRequests {
    /// Applies the requested changes, one after the other, to the range, and records in the
    /// summary the items that remain intact.
    pub fn apply_changes(&self, range: &mut Range2, summary: &mut ChangeSessionSummary)
        requires
            series_fits(*old(range), self.requests@),
            old(summary).remained.wf(),
        ensures
            *final(range) == series_changed(*old(range), self.requests@),
            (final(summary).remained.remained@, final(summary).remained.no_unchanged_ranges) == series_summary(
                *old(range),
                old(summary).remained.remained@,
                old(summary).remained.no_unchanged_ranges,
                self.requests@,
            ),
            final(summary).events@ == old(summary).events@ + series_events(*old(range), self.requests@),
            final(summary).remained.wf(),
    {
        let ghost r0 = *range;
        let ghost rem0 = summary.remained.remained@;
        let ghost flag0 = summary.remained.no_unchanged_ranges;
        let ghost events0 = summary.events@;
        let ghost cs = self.requests@;
        let mut i: usize = 0;
        while i < self.requests.len()
            invariant
                i <= cs.len(),
                cs == self.requests@,
                series_fits(r0, cs),
                *range == series_changed(r0, cs.take(i as int)),
                (summary.remained.remained@, summary.remained.no_unchanged_ranges) == series_summary(
                    r0,
                    rem0,
                    flag0,
                    cs.take(i as int),
                ),
                summary.events@ == events0 + series_events(r0, cs.take(i as int)),
                summary.remained.wf(),
            decreases cs.len() - i,
        {
            proof {
                lemma_series_fits_prefix(r0, cs, i as int + 1);
                assert(cs.take(i + 1).drop_last() =~= cs.take(i as int));
                assert(cs.take(i + 1).last() == cs[i as int]);
            }
            let change = &self.requests[i];
            range.change_cont(change, summary);
            proof {
                assert(summary.events@ =~= events0 + series_events(r0, cs.take(i + 1)));
            }
            i = i + 1;
        }
        proof {
            assert(cs.take(cs.len() as int) =~= cs);
        }
    }
}

/// The changes of a prefix of a series that fits can be applied one after the other.
proof fn lemma_series_fits_prefix(r: Range2, cs: Seq<Change>, n: int)
    requires
        series_fits(r, cs),
        0 <= n <= cs.len(),
    ensures
        series_fits(r, cs.take(n)),
    decreases cs.len(),
{
    if n < cs.len() {
        assert(cs.drop_last().take(n) =~= cs.take(n));
        lemma_series_fits_prefix(r, cs.drop_last(), n);
    } else {
        assert(cs.take(n) =~= cs);
    }
}

/// An edge change on the end side acts on the last `change_len` items of the range: a
/// removal takes them off, keeping the start of the range, and is recorded as the removal of
/// exactly those items; an addition there grows the range by as many items, keeping its
/// start; a shift towards the end moves the whole range by as many items. On the start side,
/// a removal of no more items than lie before the range moves it back by as many items.
pub proof fn law_edge_change(s: Range2, change_len: usize)
    requires
        s.wf(),
    ensures
        change_len <= s.len ==> s.changed(s.edge_change_of(ChangeKind::Remove, ChangeDirection::End, change_len))
            == (Range2 { index: s.index, len: (s.len - change_len) as usize }),
        0 < change_len <= s.len ==> s.change_events(
            s.edge_change_of(ChangeKind::Remove, ChangeDirection::End, change_len),
        ) == seq![ChangeInfo::Remove(Range2 { index: (s.spec_end() - change_len) as usize, len: change_len })],
        change_len <= s.len && s.spec_end() + change_len <= usize::MAX ==> s.changed(
            s.edge_change_of(ChangeKind::Add, ChangeDirection::End, change_len),
        ) == (Range2 { index: s.index, len: (s.len + change_len) as usize }),
        s.spec_end() + change_len <= usize::MAX ==> s.changed(
            s.edge_change_of(ChangeKind::Shift, ChangeDirection::End, change_len),
        ) == (Range2 { index: (s.index + change_len) as usize, len: s.len }),
        change_len <= s.index ==> s.changed(s.edge_change_of(ChangeKind::Remove, ChangeDirection::Start, change_len))
            == (Range2 { index: (s.index - change_len) as usize, len: s.len }),
{
    if change_len <= s.len {
        let r = Range2 { index: (s.spec_end() - change_len) as usize, len: change_len };
        assert(s.edge_change_of(ChangeKind::Remove, ChangeDirection::End, change_len) == (Change::Remove { index: r.index, len: r.len }));
        if 0 < change_len {
            let events = s.removal_events(r);
            assert(events =~= seq![ChangeInfo::Remove(r)]);
        }
    }
}

} // verus!
