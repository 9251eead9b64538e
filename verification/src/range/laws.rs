//! What the changes keep: the remained ranges that a change or a series of changes reports
//! hold the very items of the list object that were there before, at the reported positions.
use vstd::prelude::*;
use super::Range2;
use super::change::{Change, series_changed, series_fits, series_summary, lemma_change_remained_fit};
use super::remained::{NewRemained, RemainedRanges, ResolvedRemained, resolve_cross, lemma_cross_origin, first_resolved, lemma_resolve_descends};
use super::categorical::spec_intersection;

verus! {

/// The new remained range `n` carries its items across the change `c` of the range `s`: each
/// of its items lies in `s` before the change, stands after the change at the position given
/// by the range after the change, and lies in the changed range.
pub open spec fn carries(n: NewRemained, s: Range2, c: Change) -> bool {
    forall|j: int|
        0 <= j < n.length ==> {
            &&& s.has(n.index_before + j)
            &&& #[trigger] c.position_after(n.index_before + j) == Some(n.index_after + j)
            &&& s.changed(c).has(n.index_after + j)
        }
}

/// Some of the new remained ranges `pieces` holds the position `p` before the change.
pub open spec fn held_before(pieces: Seq<NewRemained>, p: int) -> bool {
    exists|k: int| 0 <= k < pieces.len() && (#[trigger] pieces[k]).before_range().has(p)
}

/// A change keeps the items that it reports as remained: every new remained range of the
/// change carries its items, at the reported positions, from the range before the change to
/// the range after it; and every item of the range that survives the change and stays in the
/// range is reported as remained.
pub proof fn law_change_remained(s: Range2, c: Change)
    requires
        s.change_fits(c),
    ensures
        forall|k: int| 0 <= k < s.change_remained(c).len() ==> carries(#[trigger] s.change_remained(c)[k], s, c),
        forall|p: int|
            s.has(p) && c.position_after(p) is Some && s.changed(c).has(c.position_after(p).unwrap())
                ==> held_before(s.change_remained(c), p),
{
    let pieces = s.change_remained(c);
    assert forall|p: int|
        s.has(p) && c.position_after(p) is Some && s.changed(c).has(c.position_after(p).unwrap())
            implies held_before(pieces, p) by {
        if pieces.len() > 0 && pieces[0].before_range().has(p) {
            assert(held_before(pieces, p));
        } else if pieces.len() > 1 && pieces[1].before_range().has(p) {
            assert(held_before(pieces, p));
        }
    }
}

/// Where the item at position `p` of the list object stands after the changes `cs`, applied
/// one after the other; none when a change removes it.
pub open spec fn series_position(cs: Seq<Change>, p: int) -> Option<int>
    decreases cs.len(),
{
    if cs.len() == 0 {
        Some(p)
    } else {
        match series_position(cs.drop_last(), p) {
            Some(q) => cs.last().position_after(q),
            None => None,
        }
    }
}

/// The resolved remained range `r` holds items of the original range `s` that the changes
/// `cs` carried, at the reported positions, into the range they produced.
pub open spec fn keeps(r: ResolvedRemained, s: Range2, cs: Seq<Change>) -> bool {
    forall|j: int|
        0 <= j < r.length ==> {
            &&& s.has(r.index_original + j)
            &&& #[trigger] series_position(cs, r.index_original + j) == Some(r.index_current + j)
            &&& series_changed(s, cs).has(r.index_current + j)
        }
}

/// A series of changes keeps the items that its summary reports as remained: when a new
/// summary has recorded the changes `cs` applied one after the other to the range `s`, and it
/// does not report that no item remained unchanged, each of its remained ranges holds items
/// of `s` that the changes carried to the reported current positions, in the resulting range.
pub proof fn law_series_remained(s: Range2, cs: Seq<Change>)
    requires
        series_fits(s, cs),
    ensures
        ({
            let (rem, flag) = series_summary(s, Seq::empty(), false, cs);
            !flag ==> forall|k: int| 0 <= k < rem.len() ==> keeps(#[trigger] rem[k], s, cs)
        }),
    decreases cs.len(),
{
    lemma_series_remained(s, cs);
}

/// A resolution of a kept range with a range that a further change carries is kept through
/// that change too.
proof fn lemma_resolved_keeps(pr: ResolvedRemained, n: NewRemained, s: Range2, init: Seq<Change>, c: Change)
    requires
        keeps(pr, s, init),
        carries(n, series_changed(s, init), c),
        pr.wf(),
        n.wf(),
        pr.spec_resolve(n) is Some,
    ensures
        keeps(pr.spec_resolve(n).unwrap(), s, init.push(c)),
{
    let xr = spec_intersection(pr.current_range(), n.before_range()).unwrap();
    let cs = init.push(c);
    assert(cs.drop_last() =~= init);
    assert(cs.last() == c);
    let x = pr.spec_resolve(n).unwrap();
    let lo = xr.index as int;
    assert(x.index_original == lo + pr.index_original - pr.index_current);
    assert(x.index_current == lo + n.index_after - n.index_before);
    assert forall|j: int| 0 <= j < x.length implies {
        &&& s.has(x.index_original + j)
        &&& #[trigger] series_position(cs, x.index_original + j) == Some(x.index_current + j)
        &&& series_changed(s, cs).has(x.index_current + j)
    } by {
        let jp = lo + j - pr.index_current;
        let jn = lo + j - n.index_before;
        assert(0 <= jp < pr.length);
        assert(0 <= jn < n.length);
        assert(series_position(init, pr.index_original + jp) == Some(pr.index_current + jp));
        assert(c.position_after(n.index_before + jn) == Some(n.index_after + jn));
        assert(pr.index_original + jp == x.index_original + j);
    }
}

/// A new remained range of the first change of a series is kept, at its positions before and
/// after the change.
proof fn lemma_first_keeps(n: NewRemained, s: Range2, c: Change)
    requires
        carries(n, s, c),
    ensures
        keeps(ResolvedRemained::from_new(n), s, seq![c]),
{
    let cs = seq![c];
    assert(cs.drop_last() =~= Seq::<Change>::empty());
    assert(series_changed(s, cs.drop_last()) == s);
    let r = ResolvedRemained::from_new(n);
    assert forall|j: int| 0 <= j < r.length implies {
        &&& s.has(r.index_original + j)
        &&& #[trigger] series_position(cs, r.index_original + j) == Some(r.index_current + j)
        &&& series_changed(s, cs).has(r.index_current + j)
    } by {
        assert(c.position_after(n.index_before + j) == Some(n.index_after + j));
        assert(series_position(cs.drop_last(), n.index_before + j) == Some(n.index_before + j));
    }
}

/// The last change of a series that fits can be applied to the range before it.
proof fn lemma_series_fits_changed(s: Range2, cs: Seq<Change>)
    requires
        series_fits(s, cs),
        cs.len() > 0,
    ensures
        series_changed(s, cs.drop_last()).change_fits(cs.last()),
        series_fits(s, cs.drop_last()),
{
}

proof fn lemma_series_remained(s: Range2, cs: Seq<Change>)
    requires
        series_fits(s, cs),
    ensures
        ({
            let (rem, flag) = series_summary(s, Seq::empty(), false, cs);
            &&& !flag ==> forall|k: int| 0 <= k < rem.len() ==> keeps(#[trigger] rem[k], s, cs)
            &&& (!flag && cs.len() > 0) ==> rem.len() > 0
            &&& forall|k: int| 0 <= k < rem.len() ==> (#[trigger] rem[k]).wf()
        }),
    decreases cs.len(),
{
    if cs.len() > 0 {
        let init = cs.drop_last();
        let c = cs.last();
        assert(init.push(c) =~= cs);
        lemma_series_remained(s, init);
        let (p, f) = series_summary(s, Seq::empty(), false, init);
        let t = series_changed(s, init);
        let pieces = t.change_remained(c);
        law_change_remained(t, c);
        lemma_series_fits_changed(s, cs);
        lemma_change_remained_fit(t, c);
        let (rem, flag) = series_summary(s, Seq::empty(), false, cs);
        if f || pieces.len() == 0 {
            assert(rem == p);
        } else if p.len() == 0 {
            assert(rem == first_resolved(pieces).reverse());
            assert forall|k: int| 0 <= k < rem.len() implies (#[trigger] rem[k]).wf() by {
                assert(rem[k] == ResolvedRemained::from_new(pieces[pieces.len() - 1 - k]));
            }
        } else {
            let cross = resolve_cross(p, pieces);
            assert(rem == cross.reverse());
            assert forall|k: int| 0 <= k < rem.len() implies (#[trigger] rem[k]).wf() by {
                let u = cross.len() - 1 - k;
                assert(rem[k] == cross[u]);
                let ab = lemma_cross_origin(p, pieces, u);
                lemma_resolve_descends(p[ab.0], pieces[ab.1]);
            }
        }
        if !flag {
            assert(!f && pieces.len() > 0);
            if p.len() == 0 {
                assert(init.len() == 0);
                assert(cs =~= seq![c]);
                assert(rem == first_resolved(pieces).reverse());
                assert forall|k: int| 0 <= k < rem.len() implies keeps(#[trigger] rem[k], s, cs) by {
                    let n = pieces[pieces.len() - 1 - k];
                    assert(rem[k] == ResolvedRemained::from_new(n));
                    assert(carries(n, t, c));
                    lemma_first_keeps(n, s, c);
                }
                assert(rem.len() > 0);
            } else {
                let cross = resolve_cross(p, pieces);
                assert(rem == cross.reverse());
                assert forall|k: int| 0 <= k < rem.len() implies keeps(#[trigger] rem[k], s, cs) by {
                    let u = cross.len() - 1 - k;
                    assert(rem[k] == cross[u]);
                    let ab = lemma_cross_origin(p, pieces, u);
                    assert(keeps(p[ab.0], s, init));
                    assert(carries(pieces[ab.1], t, c));
                    lemma_resolved_keeps(p[ab.0], pieces[ab.1], s, init, c);
                }
                assert(rem.len() > 0);
            }
        }
    }
}

/// Once no range remains unchanged, none ever does again: applying new remained ranges keeps
/// the flag set and the remained ranges as they were; and a change that leaves no remained
/// range sets the flag and keeps the remained ranges as they were.
pub proof fn law_no_unchanged_ranges_stays(
    prev: Seq<ResolvedRemained>,
    flag: bool,
    new: Seq<NewRemained>,
)
    ensures
        flag ==> RemainedRanges::spec_applied_flag(prev, flag, new)
            && RemainedRanges::spec_applied(prev, flag, new) == prev,
        new.len() == 0 ==> RemainedRanges::spec_applied_flag(prev, flag, new)
            && RemainedRanges::spec_applied(prev, flag, new) == prev,
{
}

} // verus!
