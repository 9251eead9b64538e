use jihaz::range::change::{
    Change, ChangeDirection, ChangeInfo, ChangeSessionSummary, RangeChange, RangeChangeCont,
};
use jihaz::range::remained::{IndexTranslation, NewRemained, RemainedRanges, ResolvedRemained};
use jihaz::range::{Range2, RangeSet, SetSimilar};

fn pair(r: &Range2) -> (usize, usize) {
    (r.index, r.len)
}

fn pairs(rs: &[Range2]) -> Vec<(usize, usize)> {
    rs.iter().map(pair).collect()
}

#[test]
fn range_basics() {
    let r = Range2::new(3, 4);
    assert!(r.is_some() && r.is_span());
    assert!(!r.is_none() && !r.is_caret());
    assert_eq!(r.index(), 3);
    assert_eq!(r.index_plus_one(), 4);
    assert_eq!(r.len(), 4);
    assert_eq!(r.end_index(), 7);
    assert_eq!(r.last_index(), 6);
    assert_eq!(r.range(), 3..7);
    assert!(r.contains(3) && r.contains(6) && !r.contains(7) && !r.contains(2));
    assert_eq!(pair(&Range2::from_indexes(2, 5)), (2, 3));
    assert_eq!(pair(&Range2::new_from_end(2, 5)), (3, 2));
    assert_eq!(pair(&Range2::from(4..9)), (4, 5));
    let caret = Range2::new(5, 0);
    assert!(caret.is_caret() && caret.is_none());
}

#[test]
fn range_setters() {
    let mut r = Range2::new(0, 0);
    r.set(2, 3);
    assert_eq!(pair(&r), (2, 3));
    r.set_index(4);
    assert_eq!(pair(&r), (4, 3));
    r.set_len(6);
    assert_eq!(pair(&r), (4, 6));
    r.set_caret(9);
    assert_eq!(pair(&r), (9, 0));
    r.set_indexes(1, 5);
    assert_eq!(pair(&r), (1, 4));
    r.set_rev(2, 10);
    assert_eq!(pair(&r), (8, 2));
}

#[test]
fn range_relations() {
    let a = Range2::new(2, 4);
    let b = Range2::new(3, 2);
    let c = Range2::new(6, 2);
    assert!(a.contains_range(&b));
    assert!(!b.contains_range(&a));
    assert!(b.contained_in(&a));
    assert!(a.contains_start(&b));
    assert!(a.follows(&c));
    assert!(c.preceeds(&a));
    assert!(!a.preceeds(&c));
    assert!(!c.follows(&a));
    assert!(a.preceeds_index(1));
    assert!(!a.preceeds_index(2));
    assert!(a.follows_index(6));
    assert!(!a.follows_index(5));
    assert_eq!(pair(&a.get_following(3)), (6, 3));
}

#[test]
fn range_set_operations() {
    let a = Range2::new(2, 4);
    let b = Range2::new(4, 5);
    assert_eq!(a.intersection(&b).map(|r| pair(&r)), Some((4, 2)));
    assert!(a.intersection(&Range2::new(6, 2)).is_none());
    assert_eq!(pairs(&a.union(&b)), vec![(2, 7)]);
    assert_eq!(pairs(&a.union(&Range2::new(8, 1))), vec![(2, 4), (8, 1)]);
    assert_eq!(pairs(&a.complement(10)), vec![(0, 2), (6, 4)]);
    assert_eq!(pairs(&Range2::new(0, 4).complement(10)), vec![(4, 6)]);
    assert_eq!(pairs(&a.relative_complement(&b)), vec![(2, 2)]);
    assert_eq!(pairs(&Range2::new(0, 10).relative_complement(&b)), vec![(0, 4), (9, 1)]);
    assert_eq!(pairs(&a.symmetric_difference(&b)), vec![(2, 2), (6, 3)]);
    assert_eq!(pairs(&a.symmetric_difference(&Range2::new(8, 1))), vec![(2, 4), (8, 1)]);
}

#[test]
fn range_similar_operations() {
    let a = Range2::new(2, 4);
    assert_eq!(a.apart(&Range2::new(8, 1)).map(|r| pair(&r)), Some((6, 2)));
    assert!(a.apart(&Range2::new(6, 1)).is_none());
    assert_eq!(a.combine(&Range2::new(5, 2)).map(|r| pair(&r)), Some((2, 5)));
    // ranges that only touch are not combined, as their union is two ranges
    assert!(a.combine(&Range2::new(6, 1)).is_none());
    assert!(a.combine(&Range2::new(8, 1)).is_none());
    assert!(a.adjacent(&Range2::new(6, 3)));
    assert!(!a.adjacent(&Range2::new(7, 3)));
}

#[test]
fn index_translation() {
    assert!(matches!(IndexTranslation::get(5, 2), IndexTranslation::Negative(3)));
    assert!(matches!(IndexTranslation::get(5, 5), IndexTranslation::Zero));
    assert!(matches!(IndexTranslation::get(2, 5), IndexTranslation::Positive(3)));
    assert_eq!(IndexTranslation::Negative(3).with_apply_index_translation(7), 4);
    assert_eq!(IndexTranslation::Positive(3).with_apply_index_translation(7), 10);
    let mut i = 4;
    IndexTranslation::Positive(2).apply_index_translation(&mut i);
    assert_eq!(i, 6);
}

#[test]
fn new_and_resolved_remained() {
    let n = NewRemained::new(Range2::new(3, 2), IndexTranslation::Positive(4));
    assert_eq!((n.index_before, n.length, n.index_after), (3, 2, 7));
    assert_eq!(n.remained_before(), 3..5);
    assert_eq!(n.remained_after(), 7..9);
    assert!(matches!(n.index_shift_after_to_before(), IndexTranslation::Negative(4)));
    assert!(matches!(n.index_shift_before_to_after(), IndexTranslation::Positive(4)));
    let r = ResolvedRemained { length: 4, index_original: 10, index_current: 2 };
    assert_eq!(r.remained_original(), 10..14);
    assert_eq!(r.remained_current(), 2..6);
    assert!(matches!(r.index_shift_current_to_original(), IndexTranslation::Positive(8)));
    // The part of the current range 2..6 that also remains across a change keeping 4..8 and
    // moving it to 0..4.
    let resolved = r.resolve(&NewRemained::new_raw(4, 4, 0)).unwrap();
    assert_eq!(
        (resolved.length, resolved.index_original, resolved.index_current),
        (2, 12, 0)
    );
    assert!(r.resolve(&NewRemained::new_raw(7, 2, 0)).is_none());
    let mut first = ResolvedRemained { length: 2, index_original: 5, index_current: 0 };
    let next = ResolvedRemained { length: 3, index_original: 1, index_current: 1 };
    assert!(first.combine(&next));
    assert_eq!((first.length, first.index_original, first.index_current), (4, 1, 0));
    let mut apart = ResolvedRemained { length: 1, index_original: 0, index_current: 7 };
    assert!(!apart.combine(&next));
    assert_eq!((apart.length, apart.index_original, apart.index_current), (1, 0, 7));
}

#[test]
fn remained_ranges_across_changes() {
    let mut ranges = RemainedRanges::new();
    assert!(ranges.remained.is_empty() && !ranges.no_unchanged_ranges);
    ranges.apply_new_remained(vec![NewRemained::new_raw(0, 5, 2)]);
    assert_eq!(ranges.remained.len(), 1);
    assert_eq!(ranges.remained[0].remained_original(), 0..5);
    assert_eq!(ranges.remained[0].remained_current(), 2..7);
    ranges.apply_new_remained(vec![NewRemained::new_raw(4, 3, 0)]);
    assert_eq!(ranges.remained.len(), 1);
    assert_eq!(ranges.remained[0].remained_original(), 2..5);
    assert_eq!(ranges.remained[0].remained_current(), 0..3);
    ranges.apply_new_remained(vec![]);
    assert!(ranges.no_unchanged_ranges);
    ranges.apply_new_remained(vec![NewRemained::new_raw(0, 3, 0)]);
    assert!(ranges.no_unchanged_ranges);
    assert_eq!(ranges.remained.len(), 1);
}

#[test]
fn range_changes_one_by_one() {
    // an addition before the range moves it
    let mut r = Range2::new(5, 3);
    let summary = r.add(&Range2::new(2, 2));
    assert_eq!(pair(&r), (7, 3));
    assert_eq!(summary.remained().len(), 1);
    assert_eq!(summary.remained()[0].remained_original(), 5..8);
    assert_eq!(summary.remained()[0].remained_current(), 7..10);
    // a removal inside the range shortens it
    let mut r = Range2::new(5, 6);
    r.remove(&Range2::new(6, 2));
    assert_eq!(pair(&r), (5, 4));
    // a shift moves the range without changing the list
    let mut r = Range2::new(5, 3);
    let summary = r.change(&Change::shift(2, ChangeDirection::Start));
    assert_eq!(pair(&r), (3, 3));
    assert_eq!(summary.remained().len(), 1);
    let fresh = ChangeSessionSummary::new();
    assert!(fresh.remained().is_empty() && fresh.events().is_empty());
}

#[test]
fn removals_record_their_events() {
    let mut r = Range2::new(3, 3);
    let mut s = ChangeSessionSummary::new();
    r.change_cont(&Change::remove(4, 1), &mut s);
    assert_eq!(pair(&r), (3, 2));
    assert_eq!(s.events().len(), 1);
    match s.events()[0] {
        ChangeInfo::Remove(x) => assert_eq!(pair(&x), (4, 1)),
        _ => panic!("a removal event"),
    }
    // a removal that reaches past the end records the items of the range it removes
    r.change_cont(&Change::remove(2, 10), &mut s);
    assert_eq!(s.events().len(), 2);
    match s.events()[1] {
        ChangeInfo::Remove(x) => assert_eq!(pair(&x), (3, 2)),
        _ => panic!("a removal event"),
    }
    // a removal after the range removes none of its items, and records nothing
    let mut t = Range2::new(0, 2);
    let summary = t.remove(&Range2::new(5, 1));
    assert!(summary.events().is_empty());
    // additions record no event
    let summary = t.add(&Range2::new(1, 3));
    assert!(summary.events().is_empty());
}

#[test]
fn no_unchanged_ranges_stays_set() {
    let kept = ResolvedRemained { length: 2, index_original: 1, index_current: 3 };
    let mut rr = RemainedRanges { remained: vec![kept], no_unchanged_ranges: true };
    // ranges that overlap after the change are taken as they come once the flag is set
    rr.apply_new_remained(vec![NewRemained::new_raw(0, 2, 0), NewRemained::new_raw(5, 2, 1)]);
    assert!(rr.no_unchanged_ranges);
    assert_eq!(rr.remained.len(), 1);
    assert_eq!((rr.remained[0].index_original, rr.remained[0].index_current), (1, 3));
    // a change that leaves no remained range sets the flag
    let mut fresh = RemainedRanges::new();
    fresh.apply_new_remained(Vec::new());
    assert!(fresh.no_unchanged_ranges && fresh.remained.is_empty());
}

#[test]
fn new_ranges_that_overlap_but_do_not_join_are_kept() {
    // new ranges after the change at 0..3, 5..6 and 1..2: the last does not join the one before
    // it, so all are kept, in reverse order, though the first and the last overlap
    let mut rr = RemainedRanges::new();
    rr.apply_new_remained(vec![
        NewRemained::new_raw(0, 3, 0),
        NewRemained::new_raw(7, 1, 5),
        NewRemained::new_raw(9, 1, 1),
    ]);
    assert!(!rr.no_unchanged_ranges);
    let currents: Vec<(usize, usize)> =
        rr.remained.iter().map(|r| (r.index_current, r.length)).collect();
    assert_eq!(currents, vec![(1, 1), (5, 1), (0, 3)]);
}
