//! Set theory inspired operations on ranges.
use vstd::prelude::*;
use super::Range2;

verus! {

/// The smaller of two integers.
pub open spec fn min_int(a: int, b: int) -> int {
    if a <= b { a } else { b }
}

/// The larger of two integers.
pub open spec fn max_int(a: int, b: int) -> int {
    if a >= b { a } else { b }
}

/// Some piece of `pieces` holds the position `i`.
pub open spec fn covers(pieces: Seq<Range2>, i: int) -> bool {
    exists|k: int| 0 <= k < pieces.len() && (#[trigger] pieces[k]).has(i)
}

/// Every piece of `pieces` is non-empty.
pub open spec fn all_nonempty(pieces: Seq<Range2>) -> bool {
    forall|k: int| 0 <= k < pieces.len() ==> (#[trigger] pieces[k]).len > 0
}

/// The one-element sequence of `r` when `r` is non-empty, the empty sequence otherwise.
pub open spec fn nonempty_piece(r: Range2) -> Seq<Range2> {
    if r.len > 0 { seq![r] } else { Seq::empty() }
}

/// The range of the items that belong to both `a` and `b`, if there is any.
pub open spec fn spec_intersection(a: Range2, b: Range2) -> Option<Range2> {
    let lo = max_int(a.index as int, b.index as int);
    let hi = min_int(a.spec_end(), b.spec_end());
    if lo < hi { Some(Range2::spec_from_bounds(lo, hi)) } else { None }
}

/// `a` lies wholly before `b` and ends at or before the start of `b`.
pub open spec fn separated_before(a: Range2, b: Range2) -> bool {
    a.index < b.index && a.spec_end() < b.spec_end() && a.spec_end() <= b.index
}

/// The union: two ranges, the lower one first, when they share no item and neither holds the
/// other; otherwise the one range that spans both.
pub open spec fn spec_union(a: Range2, b: Range2) -> Seq<Range2> {
    if separated_before(a, b) {
        seq![a, b]
    } else if separated_before(b, a) {
        seq![b, a]
    } else {
        seq![
            Range2::spec_from_bounds(
                min_int(a.index as int, b.index as int),
                max_int(a.spec_end(), b.spec_end()),
            ),
        ]
    }
}

/// The complement of `a` within `0..total_length`: what lies before `a`, then what lies after it.
pub open spec fn spec_complement(a: Range2, total_length: int) -> Seq<Range2> {
    let before = Range2::spec_from_bounds(0, a.index as int);
    let after = Range2::spec_from_bounds(a.spec_end(), total_length);
    if a.index == 0 && a.spec_end() == total_length {
        Seq::empty()
    } else if a.index == 0 {
        seq![after]
    } else if a.spec_end() == total_length {
        seq![before]
    } else {
        seq![before, after]
    }
}

/// The items of `a` that do not belong to `b`: the part of `a` before `b`, then the part of `a`
/// after `b`, each only when it is non-empty.
pub open spec fn spec_relative_complement(a: Range2, b: Range2) -> Seq<Range2> {
    let left = Range2::spec_from_bounds(a.index as int, min_int(a.spec_end(), b.index as int));
    let right = Range2::spec_from_bounds(max_int(a.index as int, b.spec_end()), a.spec_end());
    nonempty_piece(left) + nonempty_piece(right)
}

/// The items that belong to exactly one of `a` and `b`. When the two ranges overlap or touch,
/// these are the outer parts before and after their common part; otherwise the two ranges
/// themselves, the lower one first. Empty pieces are left out.
pub open spec fn spec_symmetric_difference(a: Range2, b: Range2) -> Seq<Range2> {
    let lo_i = min_int(a.index as int, b.index as int);
    let hi_i = max_int(a.index as int, b.index as int);
    let lo_e = min_int(a.spec_end(), b.spec_end());
    let hi_e = max_int(a.spec_end(), b.spec_end());
    if hi_i <= lo_e {
        nonempty_piece(Range2::spec_from_bounds(lo_i, hi_i)) + nonempty_piece(
            Range2::spec_from_bounds(lo_e, hi_e),
        )
    } else if a.index <= b.index {
        nonempty_piece(a) + nonempty_piece(b)
    } else {
        nonempty_piece(b) + nonempty_piece(a)
    }
}

/// The items strictly between `a` and `b`, when there are any.
pub open spec fn spec_apart(a: Range2, b: Range2) -> Option<Range2> {
    if a.index < b.index {
        if a.spec_end() < b.index {
            Some(Range2::spec_from_bounds(a.spec_end(), b.index as int))
        } else {
            None
        }
    } else {
        if b.spec_end() < a.index {
            Some(Range2::spec_from_bounds(b.spec_end(), a.index as int))
        } else {
            None
        }
    }
}

/// The union of `a` and `b` when it is one range.
pub open spec fn spec_combine(a: Range2, b: Range2) -> Option<Range2> {
    if spec_union(a, b).len() == 1 {
        Some(spec_union(a, b)[0])
    } else {
        None
    }
}


proof fn lemma_covers_one(x: Range2, i: int)
    ensures
        covers(seq![x], i) <==> x.has(i),
{
    if x.has(i) {
        assert(seq![x][0] == x);
    }
}

proof fn lemma_covers_two(x: Range2, y: Range2, i: int)
    ensures
        covers(seq![x, y], i) <==> x.has(i) || y.has(i),
{
    let s = seq![x, y];
    assert(s[0] == x);
    assert(s[1] == y);
}

proof fn lemma_covers_concat(s1: Seq<Range2>, s2: Seq<Range2>, i: int)
    ensures
        covers(s1 + s2, i) <==> covers(s1, i) || covers(s2, i),
{
    let s = s1 + s2;
    if covers(s, i) {
        let k = choose|k: int| 0 <= k < s.len() && (#[trigger] s[k]).has(i);
        if k < s1.len() {
            assert(s1[k] == s[k]);
        } else {
            assert(s2[k - s1.len()] == s[k]);
        }
    }
    if covers(s1, i) {
        let k = choose|k: int| 0 <= k < s1.len() && (#[trigger] s1[k]).has(i);
        assert(s[k] == s1[k]);
    }
    if covers(s2, i) {
        let k = choose|k: int| 0 <= k < s2.len() && (#[trigger] s2[k]).has(i);
        assert(s[k + s1.len()] == s2[k]);
    }
}

proof fn lemma_covers_nonempty_piece(r: Range2, i: int)
    ensures
        covers(nonempty_piece(r), i) <==> r.has(i),
        all_nonempty(nonempty_piece(r)),
{
    if r.len > 0 {
        lemma_covers_one(r, i);
    }
}

proof fn lemma_all_nonempty_concat(s1: Seq<Range2>, s2: Seq<Range2>)
    requires
        all_nonempty(s1),
        all_nonempty(s2),
    ensures
        all_nonempty(s1 + s2),
{
    assert forall|k: int| 0 <= k < (s1 + s2).len() implies (#[trigger] (s1 + s2)[k]).len > 0 by {
        if k < s1.len() {
            assert((s1 + s2)[k] == s1[k]);
        } else {
            assert((s1 + s2)[k] == s2[k - s1.len()]);
        }
    }
}

/// The intersection holds exactly the positions that belong to both ranges; there is none
/// exactly when they share no position.
pub proof fn law_intersection(a: Range2, b: Range2)
    ensures
        spec_intersection(a, b) matches Some(x) ==> x.len > 0 && forall|i: int| x.has(i) <==> a.has(i) && b.has(i),
        spec_intersection(a, b) is None ==> forall|i: int| !(a.has(i) && b.has(i)),
{
}

/// The union holds exactly the positions that belong to either range, in one range or two.
pub proof fn law_union(a: Range2, b: Range2)
    requires
        a.wf(),
        b.wf(),
    ensures
        forall|i: int| covers(spec_union(a, b), i) <==> a.has(i) || b.has(i),
        1 <= spec_union(a, b).len() <= 2,
{
    assert forall|i: int| covers(spec_union(a, b), i) <==> a.has(i) || b.has(i) by {
        if separated_before(a, b) {
            lemma_covers_two(a, b, i);
        } else if separated_before(b, a) {
            lemma_covers_two(b, a, i);
        } else {
            lemma_covers_one(spec_union(a, b)[0], i);
            assert(spec_union(a, b) == seq![spec_union(a, b)[0]]);
        }
    }
}

/// The complement within `0..total_length` of a range that ends within it holds exactly the
/// positions of `0..total_length` outside the range.
pub proof fn law_complement(a: Range2, total_length: int)
    requires
        a.wf(),
        a.spec_end() <= total_length <= usize::MAX,
    ensures
        forall|i: int| covers(spec_complement(a, total_length), i) <==> 0 <= i < total_length && !a.has(i),
{
    let before = Range2::spec_from_bounds(0, a.index as int);
    let after = Range2::spec_from_bounds(a.spec_end(), total_length);
    assert forall|i: int| covers(spec_complement(a, total_length), i) <==> 0 <= i < total_length && !a.has(i) by {
        if a.index == 0 && a.spec_end() == total_length {
            assert(spec_complement(a, total_length).len() == 0);
        } else if a.index == 0 {
            assert(spec_complement(a, total_length) == seq![after]);
            lemma_covers_one(after, i);
        } else if a.spec_end() == total_length {
            assert(spec_complement(a, total_length) == seq![before]);
            lemma_covers_one(before, i);
        } else {
            assert(spec_complement(a, total_length) == seq![before, after]);
            lemma_covers_two(before, after, i);
        }
    }
}

/// The relative complement holds exactly the positions of the first range outside the
/// second, in non-empty pieces.
pub proof fn law_relative_complement(a: Range2, b: Range2)
    requires
        a.wf(),
        b.wf(),
    ensures
        forall|i: int| covers(spec_relative_complement(a, b), i) <==> a.has(i) && !b.has(i),
        all_nonempty(spec_relative_complement(a, b)),
{
    let left = Range2::spec_from_bounds(a.index as int, min_int(a.spec_end(), b.index as int));
    let right = Range2::spec_from_bounds(max_int(a.index as int, b.spec_end()), a.spec_end());
    assert forall|i: int| covers(spec_relative_complement(a, b), i) <==> a.has(i) && !b.has(i) by {
        lemma_covers_concat(nonempty_piece(left), nonempty_piece(right), i);
        lemma_covers_nonempty_piece(left, i);
        lemma_covers_nonempty_piece(right, i);
    }
    lemma_covers_nonempty_piece(left, 0);
    lemma_covers_nonempty_piece(right, 0);
    lemma_all_nonempty_concat(nonempty_piece(left), nonempty_piece(right));
}

/// The symmetric difference holds exactly the positions that belong to one range and not the
/// other, in non-empty pieces.
pub proof fn law_symmetric_difference(a: Range2, b: Range2)
    requires
        a.wf(),
        b.wf(),
    ensures
        forall|i: int| covers(spec_symmetric_difference(a, b), i) <==> (a.has(i) != b.has(i)),
        all_nonempty(spec_symmetric_difference(a, b)),
{
    let lo_i = min_int(a.index as int, b.index as int);
    let hi_i = max_int(a.index as int, b.index as int);
    let lo_e = min_int(a.spec_end(), b.spec_end());
    let hi_e = max_int(a.spec_end(), b.spec_end());
    let p1 = Range2::spec_from_bounds(lo_i, hi_i);
    let p2 = Range2::spec_from_bounds(lo_e, hi_e);
    let (x, y) = if hi_i <= lo_e { (p1, p2) } else if a.index <= b.index { (a, b) } else { (b, a) };
    assert(spec_symmetric_difference(a, b) == nonempty_piece(x) + nonempty_piece(y));
    assert forall|i: int| covers(spec_symmetric_difference(a, b), i) <==> (a.has(i) != b.has(i)) by {
        lemma_covers_concat(nonempty_piece(x), nonempty_piece(y), i);
        lemma_covers_nonempty_piece(x, i);
        lemma_covers_nonempty_piece(y, i);
    }
    lemma_covers_nonempty_piece(x, 0);
    lemma_covers_nonempty_piece(y, 0);
    lemma_all_nonempty_concat(nonempty_piece(x), nonempty_piece(y));
}

/// The position `i` lies strictly between `a` and `b`: at or after the end of the one, and
/// before the start of the other.
pub open spec fn strictly_between(a: Range2, b: Range2, i: int) -> bool {
    (a.spec_end() <= i < b.index) || (b.spec_end() <= i < a.index)
}

/// What lies apart holds exactly the positions strictly between the two ranges, after the
/// end of the lower one and before the start of the upper one; there is something apart
/// exactly when some position lies strictly between them, and it does not depend on the
/// order of the two ranges.
pub proof fn law_apart(a: Range2, b: Range2)
    requires
        a.wf(),
        b.wf(),
    ensures
        spec_apart(a, b) is None <==> forall|i: int| !#[trigger] strictly_between(a, b, i),
        spec_apart(a, b) matches Some(x) ==> x.len > 0 && forall|i: int|
            x.has(i) <==> #[trigger] strictly_between(a, b, i),
        spec_apart(a, b) == spec_apart(b, a),
{
    if let Some(x) = spec_apart(a, b) {
        assert(strictly_between(a, b, x.index as int));
    }
}

/// Two ranges combine into the one range of the positions of either, when their union is one
/// range.
pub proof fn law_combine(a: Range2, b: Range2)
    requires
        a.wf(),
        b.wf(),
    ensures
        spec_combine(a, b) matches Some(x) ==> forall|i: int| x.has(i) <==> a.has(i) || b.has(i),
        spec_combine(a, b) is None <==> spec_union(a, b).len() == 2,
{
    law_union(a, b);
    if spec_union(a, b).len() == 1 {
        let x = spec_union(a, b)[0];
        assert(spec_union(a, b) == seq![x]);
        assert forall|i: int| x.has(i) <==> a.has(i) || b.has(i) by {
            lemma_covers_one(x, i);
        }
    }
}

/// Set theory inspired operations
pub trait RangeSet: Sized {
    /// The operands on which the operations are defined.
    spec fn valid_operand(&self) -> bool;

    /// Objects that belong to Self and Other
    ///
    /// Returns None if there's no intersection
    fn intersection(&self, other: &Self) -> Option<Self>
        requires
            self.valid_operand(),
            other.valid_operand(),
    ;

    /// Objects that belong to Self or Other
    ///
    /// If Self and Other are connected, the result will be one,
    /// if not, the result will be two
    fn union(&self, other: &Self) -> Vec<Self>
        requires
            self.valid_operand(),
            other.valid_operand(),
    ;

    /// All the objects that do not belong to range Self
    ///
    /// Returns an empty vector if there is no complement
    fn complement(&self, total_length: usize) -> Vec<Self>
        requires
            self.valid_operand(),
    ;

    /// Objects that belong to Self and not to Other
    ///
    /// Returns an empty vector if there is no complement
    fn relative_complement(&self, other: &Self) -> Vec<Self>
        requires
            self.valid_operand(),
            other.valid_operand(),
    ;

    /// Objects that belong to Self or Other but not to their intersection
    ///
    /// Returns an empty vector if there is no symmetric difference
    fn symmetric_difference(&self, other: &Self) -> Vec<Self>
        requires
            self.valid_operand(),
            other.valid_operand(),
    ;
}

/// Set theory related operations
pub trait SetSimilar: Sized {
    /// The operands on which the operations are defined.
    spec fn valid_operand(&self) -> bool;

    /// Objects that do not belong to Self or Other, but is between them
    ///
    /// Returns None if there's nothing between them
    fn apart(&self, other: &Self) -> Option<Self>
        requires
            self.valid_operand(),
            other.valid_operand(),
    ;

    /// Objects that belong to Self or Other if Self and Other are connected
    ///
    /// If Self and Other are connected, the result will be Some,
    /// if not, the result will be None.
    fn combine(&self, other: &Self) -> Option<Self>
        requires
            self.valid_operand(),
            other.valid_operand(),
    ;

    /// Self end equals Other's start or vica versa
    fn adjacent(&self, other: &Self) -> bool
        requires
            self.valid_operand(),
            other.valid_operand(),
    ;
}

impl RangeSet for Range2 {
    open spec fn valid_operand(&self) -> bool {
        self.wf()
    }

    fn intersection(&self, other: &Self) -> (r: Option<Self>)
        ensures
            r == spec_intersection(*self, *other),
    {
        let si = self.index();
        let se = self.end_index();
        let oi = other.index();
        let oe = other.end_index();
        if si < oi {
            if se < oe {
                // . . * * * * * * . . . .
                // . . . . * * * * * * . .
                if oi < se {
                    Some(Range2::from_bounds(oi, se))
                } else {
                    None
                }
            } else if se == oe {
                // . . * * * * * * . . . .
                // . . . . * * * * . . . .
                if oi < se {
                    Some(Range2::from_bounds(oi, se))
                } else {
                    None
                }
            } else {
                // . . * * * * * * * * . .
                // . . . . * * * * . . . .
                if oi < oe {
                    Some(Range2::from_bounds(oi, oe))
                } else {
                    None
                }
            }
        } else if si == oi {
            // . . . . * * * * . . . .
            // . . . . * * * * * * * .
            let end = if se <= oe { se } else { oe };
            if si < end {
                Some(Range2::from_bounds(si, end))
            } else {
                None
            }
        } else {
            if se <= oe {
                // . . . . * * * * . . . .
                // . . * * * * * * * * . .
                if si < se {
                    Some(Range2::from_bounds(si, se))
                } else {
                    None
                }
            } else {
                // . . . . * * * * * * . .
                // . . * * * * * * . . . .
                if si < oe {
                    Some(Range2::from_bounds(si, oe))
                } else {
                    None
                }
            }
        }
    }

    fn union(&self, other: &Self) -> (r: Vec<Self>)
        ensures
            r@ == spec_union(*self, *other),
    {
        let mut vec: Vec<Range2> = Vec::new();
        let si = self.index();
        let se = self.end_index();
        let oi = other.index();
        let oe = other.end_index();
        if si < oi {
            if se < oe {
                if se <= oi {
                    // . . * * * * . . . . . .
                    // . . . . . . * * * * . .
                    vec.push(Range2::from_bounds(si, se));
                    vec.push(Range2::from_bounds(oi, oe));
                } else {
                    // . . * * * * * * . . . .
                    // . . . . * * * * * * . .
                    vec.push(Range2::from_bounds(si, oe));
                }
            } else if se == oe {
                vec.push(Range2::from_bounds(si, oe));
            } else {
                vec.push(Range2::from_bounds(si, se));
            }
        } else if si == oi {
            if se < oe {
                vec.push(Range2::from_bounds(si, oe));
            } else {
                vec.push(Range2::from_bounds(si, se));
            }
        } else {
            if se < oe {
                vec.push(Range2::from_bounds(oi, oe));
            } else if se == oe {
                vec.push(Range2::from_bounds(oi, se));
            } else if oe <= si {
                // . . . . . . * * * * . .
                // . . * * * * . . . . . .
                vec.push(Range2::from_bounds(oi, oe));
                vec.push(Range2::from_bounds(si, se));
            } else {
                // . . . . * * * * * * . .
                // . . * * * * * * . . . .
                vec.push(Range2::from_bounds(oi, se));
            }
        }
        proof {
            assert(vec@ =~= spec_union(*self, *other));
        }
        vec
    }

    fn complement(&self, total_length: usize) -> (r: Vec<Self>)
        ensures
            r@ == spec_complement(*self, total_length as int),
    {
        let mut vec: Vec<Range2> = Vec::new();
        let starts_at_zero = self.index() == 0;
        let ends_at_total = self.end_index() == total_length;
        if starts_at_zero && ends_at_total {
            // * * * * * * * * *
        } else if starts_at_zero {
            // * * * * * * . . .
            vec.push(Range2::from_bounds(self.end_index(), total_length));
        } else if ends_at_total {
            // . . . * * * * * *
            vec.push(Range2::from_bounds(0, self.index()));
        } else {
            // . . . * * * . . .
            vec.push(Range2::from_bounds(0, self.index()));
            vec.push(Range2::from_bounds(self.end_index(), total_length));
        }
        proof {
            assert(vec@ =~= spec_complement(*self, total_length as int));
        }
        vec
    }

    fn relative_complement(&self, other: &Self) -> (r: Vec<Self>)
        ensures
            r@ == spec_relative_complement(*self, *other),
    {
        let mut vec: Vec<Range2> = Vec::new();
        let si = self.index();
        let se = self.end_index();
        let oi = other.index();
        let oe = other.end_index();
        // the part of self before other
        let left_end = if se <= oi { se } else { oi };
        if si < left_end {
            vec.push(Range2::from_bounds(si, left_end));
        }
        // the part of self after other
        let right_start = if si >= oe { si } else { oe };
        if right_start < se {
            vec.push(Range2::from_bounds(right_start, se));
        }
        proof {
            assert(vec@ =~= spec_relative_complement(*self, *other));
        }
        vec
    }

    fn symmetric_difference(&self, other: &Self) -> (r: Vec<Self>)
        ensures
            r@ == spec_symmetric_difference(*self, *other),
    {
        let mut vec: Vec<Range2> = Vec::new();
        let si = self.index();
        let se = self.end_index();
        let oi = other.index();
        let oe = other.end_index();
        let lo_i = if si <= oi { si } else { oi };
        let hi_i = if si >= oi { si } else { oi };
        let lo_e = if se <= oe { se } else { oe };
        let hi_e = if se >= oe { se } else { oe };
        if hi_i <= lo_e {
            // . . * * * * * * . . . .
            // . . . . * * * * * * . .
            if lo_i < hi_i {
                vec.push(Range2::from_bounds(lo_i, hi_i));
            }
            if lo_e < hi_e {
                vec.push(Range2::from_bounds(lo_e, hi_e));
            }
        } else if si <= oi {
            // . . * * * * . . . . . .
            // . . . . . . . * * * . .
            if self.is_some() {
                vec.push(*self);
            }
            if other.is_some() {
                vec.push(*other);
            }
        } else {
            // . . . . . . . * * * . .
            // . . * * * * . . . . . .
            if other.is_some() {
                vec.push(*other);
            }
            if self.is_some() {
                vec.push(*self);
            }
        }
        proof {
            assert(vec@ =~= spec_symmetric_difference(*self, *other));
        }
        vec
    }
}

impl SetSimilar for Range2 {
    open spec fn valid_operand(&self) -> bool {
        self.wf()
    }

    fn apart(&self, other: &Self) -> (r: Option<Self>)
        ensures
            r == spec_apart(*self, *other),
    {
        if self.index() < other.index() {
            if self.end_index() < other.index() {
                // . . * * * * . . . . . .
                // . . . . . . . * * * . .
                Some(Range2::from_bounds(self.end_index(), other.index()))
            } else {
                None
            }
        } else {
            if other.end_index() < self.index() {
                // . . . . . . . * * * . .
                // . . * * * * . . . . . .
                Some(Range2::from_bounds(other.end_index(), self.index()))
            } else {
                None
            }
        }
    }

    fn combine(&self, other: &Self) -> (r: Option<Self>)
        ensures
            r == spec_combine(*self, *other),
    {
        let mut res = <Range2 as RangeSet>::union(self, other);
        if res.len() == 1 {
            res.pop()
        } else {
            None
        }
    }

    fn adjacent(&self, other: &Self) -> (r: bool)
        ensures
            r == (self.spec_end() == other.index || other.spec_end() == self.index),
    {
        self.end_index() == other.index() || other.end_index() == self.index()
    }
}

} // verus!
