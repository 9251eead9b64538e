//! The bookkeeping of a tablet of views: which views stay, which go and which come when the
//! views change, and the ids under which the views are found again.
use vstd::prelude::*;
use vstd::arithmetic::div_mod::lemma_fundamental_div_mod_converse;
use crate::range::Range2;

verus! {

/// The children of the tablet, each found by this key.
#[derive(Clone, Copy, Debug, PartialEq, Eq, Structural)]
pub enum TabletChild {
    AppName,
    ExecutablePath,
    /// Generate app packages
    GenerateAppPckgs,
    OriginalIconPath,
    ProgressMessage,
    /// Target packages directory path
    TargetPckgsDirPath,
}

/// The change that happened to the views of the tablet, from the previous tablet to the new
/// one, if any.
#[derive(Clone, Copy, Debug, PartialEq, Eq, Structural)]
pub enum ChangeKind {
    /// The views covered by the tablet moved towards the end (forward direction) or the start
    /// (backward direction) of all the views, by the length of the shift, which can be more
    /// than the length of the tablet.
    Shift,
    Addition,
    Removal,
    /// In the case of a newly built tablet
    NewBuild,
}

/// The direction of the change that happened to the views of the tablet.
#[derive(Clone, Copy, Debug, PartialEq, Eq, Structural)]
pub enum ChangeDirection {
    /// To the end: for a shift, views are added at the end of the tablet and removed from its
    /// start.
    End,
    /// To the start: for a shift, views are added at the start of the tablet and removed from
    /// its end.
    Start,
}

/// A change to the views of the tablet of views.
#[derive(Clone, Copy, Debug, PartialEq, Eq, Structural)]
pub struct Change {
    pub direction: ChangeDirection,
    pub kind: ChangeKind,
}

impl Change {
    /// The change of the kind in the direction.
    pub fn new(direction: ChangeDirection, kind: ChangeKind) -> (r: Self)
        ensures
            r == (Change { direction, kind }),
    {
        Self { direction, kind }
    }
}

/// The views to keep, to remove and to add to go from the previous views to the new ones,
/// as positions within the tablet.
#[derive(Clone, Copy, Debug)]
pub struct RebuildInformation {
    pub remained: Range2,
    pub removed: Range2,
    pub added: Range2,
}

/// The parts of `current` that lie before and after `removed`, at their positions before the
/// removal; a part that is empty starts where the removed range meets `current`.
pub open spec fn spec_apply_removal(current: Range2, removed: Range2) -> (Range2, Range2) {
    let before_end = if removed.index < current.spec_end() {
        removed.index as int
    } else {
        current.spec_end()
    };
    let before_len = if before_end > current.index {
        before_end - current.index
    } else {
        0
    };
    let after_start = if removed.spec_end() > current.index {
        removed.spec_end()
    } else {
        current.index as int
    };
    let after_len = if current.spec_end() > after_start {
        current.spec_end() - after_start
    } else {
        0
    };
    (
        Range2 { index: current.index, len: before_len as usize },
        Range2 { index: after_start as usize, len: after_len as usize },
    )
}

/// The parts of `current` that lie before and after `removed`.
fn apply_removal(current: &Range2, removed: &Range2) -> (r: (Range2, Range2))
    requires
        current.wf(),
        removed.wf(),
    ensures
        r == spec_apply_removal(*current, *removed),
{
    let current_end = current.index + current.len;
    let removed_end = removed.index + removed.len;
    let before_end = if removed.index < current_end {
        removed.index
    } else {
        current_end
    };
    let before_len = if before_end > current.index {
        before_end - current.index
    } else {
        0
    };
    let after_start = if removed_end > current.index {
        removed_end
    } else {
        current.index
    };
    let after_len = if current_end > after_start {
        current_end - after_start
    } else {
        0
    };
    (Range2 { index: current.index, len: before_len }, Range2 { index: after_start, len: after_len })
}

/// The number of views that the change adds or removes: the difference of the lengths.
pub open spec fn change_length(len: int, prev_len: int) -> int {
    if len >= prev_len {
        len - prev_len
    } else {
        prev_len - len
    }
}

/// The lengths and the change fit the arithmetic of the rebuild: the views that a shift to the
/// start removes end as many views before the end of the previous ones as it removes, and the
/// views that a removal at the end removes lie within the previous ones.
pub open spec fn rebuild_fits(change: Change, len: int, prev_len: int) -> bool {
    let l = change_length(len, prev_len);
    &&& len <= isize::MAX
    &&& prev_len <= isize::MAX
    &&& change.kind != ChangeKind::NewBuild
    &&& (change.kind == ChangeKind::Shift && change.direction == ChangeDirection::Start ==> 2 * l
        <= prev_len)
    &&& (change.kind == ChangeKind::Removal && change.direction == ChangeDirection::End ==> l
        <= prev_len)
}

/// The views to keep, to remove and to add for a change from `prev_len` views to `len`.
pub open spec fn spec_rebuild_information(change: Change, len: int, prev_len: int) -> RebuildInformation {
    let l = change_length(len, prev_len);
    let current = Range2 { index: 0, len: prev_len as usize };
    let none = Range2 { index: 0, len: 0 };
    match (change.kind, change.direction) {
        (ChangeKind::Shift, ChangeDirection::End) => {
            let removed = Range2 { index: 0, len: l as usize };
            RebuildInformation {
                remained: spec_apply_removal(current, removed).1,
                removed,
                added: Range2 { index: prev_len as usize, len: l as usize },
            }
        },
        (ChangeKind::Shift, ChangeDirection::Start) => {
            let removed = Range2 { index: (prev_len - 2 * l) as usize, len: l as usize };
            RebuildInformation {
                remained: spec_apply_removal(current, removed).0,
                removed,
                added: Range2 { index: 0, len: l as usize },
            }
        },
        (ChangeKind::Addition, ChangeDirection::End) => RebuildInformation {
            remained: current,
            removed: none,
            added: Range2 { index: prev_len as usize, len: l as usize },
        },
        (ChangeKind::Addition, ChangeDirection::Start) => RebuildInformation {
            remained: current,
            removed: none,
            added: Range2 { index: 0, len: l as usize },
        },
        (ChangeKind::Removal, ChangeDirection::End) => {
            let removed = Range2 { index: (prev_len - l) as usize, len: l as usize };
            RebuildInformation {
                remained: spec_apply_removal(current, removed).0,
                removed,
                added: none,
            }
        },
        (ChangeKind::Removal, ChangeDirection::Start) => {
            let removed = Range2 { index: 0, len: l as usize };
            RebuildInformation {
                remained: spec_apply_removal(current, removed).1,
                removed,
                added: none,
            }
        },
        (ChangeKind::NewBuild, _) => RebuildInformation { remained: none, removed: none, added: none },
    }
}

/// The views to keep, to remove and to add, as positions within the tablet, to go from
/// `prev_len` views to `len` views by the change: views are removed, then added, and the
/// remained ones are rebuilt. A newly built tablet has no previous views to rebuild from.
pub fn rebuild_information(change: &Change, len: usize, prev_len: usize) -> (r: RebuildInformation)
    requires
        rebuild_fits(*change, len as int, prev_len as int),
    ensures
        r == spec_rebuild_information(*change, len as int, prev_len as int),
{
    let current = Range2::new(0, prev_len);
    let mut removed = Range2::new(0, 0);
    let mut added = Range2::new(0, 0);
    let mut remained = Range2::new(0, 0);
    let change_length = if len >= prev_len {
        len - prev_len
    } else {
        prev_len - len
    };
    match (change.kind, change.direction) {
        (ChangeKind::Shift, ChangeDirection::End) => {
            // going towards the end, the removal happens at the start side
            removed.set(0, change_length);
            // so the remained, if any, is at the end side
            let (_, after) = apply_removal(&current, &removed);
            remained = after;
            added.set(current.len, change_length);
        },
        (ChangeKind::Shift, ChangeDirection::Start) => {
            // going towards the start, the removal happens at the end side
            removed.set_rev(change_length, prev_len - change_length);
            // so the remained, if any, is at the start side
            let (before, _) = apply_removal(&current, &removed);
            remained = before;
            added.set(0, change_length);
        },
        (ChangeKind::Addition, ChangeDirection::End) => {
            remained.set(0, prev_len);
            added.set(prev_len, change_length);
        },
        (ChangeKind::Addition, ChangeDirection::Start) => {
            remained.set(0, prev_len);
            added.set(0, change_length);
        },
        (ChangeKind::Removal, ChangeDirection::End) => {
            // the removal happens at the end side
            removed.set_rev(change_length, prev_len);
            // so the remained, if any, is at the start side
            let (before, _) = apply_removal(&current, &removed);
            remained = before;
        },
        (ChangeKind::Removal, ChangeDirection::Start) => {
            // the removal happens at the start side
            removed.set(0, change_length);
            // so the remained, if any, is at the end side
            let (_, after) = apply_removal(&current, &removed);
            remained = after;
        },
        (ChangeKind::NewBuild, _) => {},
    }
    RebuildInformation { added, remained, removed }
}

/// Pack an index and a generation into an id: the generation in the high 32 bits and the
/// index in the low 32 bits. The index must fit in 32 bits.
pub fn create_generational_view_id(index: usize, generation: u32) -> (r: u64)
    requires
        index <= u32::MAX,
    ensures
        r == generation * 0x1_0000_0000 + index,
{
    let id_low: u32 = index as u32;
    let id_low: u64 = id_low as u64;
    let id_high: u64 = (generation as u64) << 32u64;
    let g = generation as u64;
    let i = id_low;
    assert((g << 32u64) | i == g * 0x1_0000_0000 + i) by (bit_vector)
        requires
            g <= 0xffff_ffff,
            i <= 0xffff_ffff,
    ;
    id_high | id_low
}

/// The index and the generation packed into an id: the low and the high 32 bits.
pub fn view_id_to_index_generation(view_id: u64) -> (r: (usize, u32))
    ensures
        r.0 == view_id % 0x1_0000_0000,
        r.1 == view_id / 0x1_0000_0000,
{
    let id_low_ix = view_id as u32;
    let id_high_gen = (view_id >> 32u64) as u32;
    assert(view_id as u32 == view_id % 0x1_0000_0000) by (bit_vector);
    assert((view_id >> 32u64) as u32 == view_id / 0x1_0000_0000) by (bit_vector);
    (id_low_ix as usize, id_high_gen)
}

/// An id undoes into the index and the generation that it was made from.
pub proof fn law_view_id_round_trip(index: usize, generation: u32)
    requires
        index <= u32::MAX,
    ensures
        (generation * 0x1_0000_0000 + index) % 0x1_0000_0000 == index,
        (generation * 0x1_0000_0000 + index) / 0x1_0000_0000 == generation,
{
    lemma_fundamental_div_mod_converse(
        generation * 0x1_0000_0000 + index,
        0x1_0000_0000,
        generation as int,
        index as int,
    );
}

} // verus!
