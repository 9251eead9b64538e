//! Ranges of items within a larger list of items, and the changes that occur to them.
//!
//! A [`Range2`] represents a span of items of a larger list of items, called the
//! object range. Change requests are applied to the object range, and the resulting
//! range is the new object range.
use vstd::prelude::*;

pub mod categorical;
pub mod change;
pub mod laws;
pub mod remained;

pub use categorical::{RangeSet, SetSimilar};

verus! {

/// A range of items, usually of a larger list or array of items.
#[derive(Copy, Clone, Debug)]
pub struct Range2 {
    pub index: usize,
    pub len: usize,
}

impl Range2 {
    /// The exclusive end of the range, as an integer.
    pub open spec fn spec_end(self) -> int {
        self.index + self.len
    }

    /// The end of the range fits in a `usize`.
    pub open spec fn wf(self) -> bool {
        self.index + self.len <= usize::MAX
    }

    /// The position `i` lies within the range.
    pub open spec fn has(self, i: int) -> bool {
        self.index <= i < self.spec_end()
    }

    /// The range that starts at `start` and ends (exclusively) at `end`; it is empty
    /// when `end` does not exceed `start`, as an empty `start..end` has length zero.
    pub open spec fn spec_from_bounds(start: int, end: int) -> Range2 {
        Range2 { index: start as usize, len: if end > start { (end - start) as usize } else { 0 } }
    }

    /// The length is 0, meaning that this does not represent a spanning range
    pub fn is_none(&self) -> (r: bool)
        ensures
            r == (self.len == 0),
    {
        self.len == 0
    }

    /// The length is more than 0, meaning that this represents a spaning range
    pub fn is_some(&self) -> (r: bool)
        ensures
            r == (self.len > 0),
    {
        self.len > 0
    }

    /// Represents a caret range, as the length is 0
    pub fn is_caret(&self) -> (r: bool)
        ensures
            r == (self.len == 0),
    {
        self.is_none()
    }

    /// Represents a spaning range, as the length is more than 0
    pub fn is_span(&self) -> (r: bool)
        ensures
            r == (self.len > 0),
    {
        self.is_some()
    }

    pub fn index(&self) -> (r: usize)
        ensures
            r == self.index,
    {
        self.index
    }

    /// Used when doing comparisons with the end index of the range
    pub fn index_plus_one(&self) -> (r: usize)
        requires
            self.index < usize::MAX,
        ensures
            r == self.index + 1,
    {
        self.index + 1
    }

    pub fn len(&self) -> (r: usize)
        ensures
            r == self.len,
    {
        self.len
    }

    /// This end index is exclusive. In other words,
    /// it is equal to last item index + 1.
    pub fn end_index(&self) -> (r: usize)
        requires
            self.wf(),
        ensures
            r == self.spec_end(),
    {
        self.index + self.len
    }

    /// Gets the last index in the range. In other words,
    /// it is equivalent to the inclusive end of the range.
    ///
    /// The range must not be empty.
    pub fn last_index(&self) -> (r: usize)
        requires
            self.wf(),
            self.len > 0,
        ensures
            r == self.spec_end() - 1,
    {
        self.end_index() - 1
    }

    /// Sets the values
    pub fn set(&mut self, index: usize, len: usize)
        ensures
            *final(self) == (Range2 { index, len }),
    {
        *self = Self::new(index, len);
    }

    /// Sets the start index
    pub fn set_index(&mut self, index: usize)
        ensures
            *final(self) == (Range2 { index, len: old(self).len }),
    {
        self.index = index;
    }

    /// Sets the length of the range
    pub fn set_len(&mut self, length: usize)
        ensures
            *final(self) == (Range2 { index: old(self).index, len: length }),
    {
        self.len = length;
    }

    /// Sets a caret range
    pub fn set_caret(&mut self, index: usize)
        ensures
            *final(self) == (Range2 { index, len: 0 }),
    {
        *self = Self::new(index, 0);
    }

    /// Sets the values, using two indexes
    pub fn set_indexes(&mut self, start_index: usize, end_index: usize)
        requires
            start_index <= end_index,
        ensures
            *final(self) == (Range2 { index: start_index, len: (end_index - start_index) as usize }),
    {
        *self = Self::from_indexes(start_index, end_index);
    }

    /// Sets the values, using the end index. From the reserve side.
    pub fn set_rev(&mut self, len: usize, end_index: usize)
        requires
            len <= end_index,
        ensures
            *final(self) == (Range2 { index: (end_index - len) as usize, len }),
    {
        *self = Self::new_from_end(len, end_index);
    }

    /// Creates a new instance
    pub fn new(index: usize, len: usize) -> (r: Self)
        ensures
            r == (Range2 { index, len }),
    {
        Self { index, len }
    }

    /// Creates a new instance, using two indexes
    pub fn from_indexes(start_index: usize, end_index: usize) -> (r: Self)
        requires
            start_index <= end_index,
        ensures
            r == (Range2 { index: start_index, len: (end_index - start_index) as usize }),
    {
        Self { index: start_index, len: end_index - start_index }
    }

    /// Creates a new instance, relative to the given end index
    pub fn new_from_end(len: usize, end_index: usize) -> (r: Self)
        requires
            len <= end_index,
        ensures
            r == (Range2 { index: (end_index - len) as usize, len }),
    {
        Self { index: end_index - len, len }
    }

    /// Creates the range that spans `start..end`; an empty one at `start` when `end` does not
    /// exceed `start`.
    pub fn from_bounds(start: usize, end: usize) -> (r: Self)
        ensures
            r == Self::spec_from_bounds(start as int, end as int),
            r.wf(),
    {
        if start < end {
            Self { index: start, len: end - start }
        } else {
            Self { index: start, len: 0 }
        }
    }

    /// Gets the std::ops::Range<usize> corresponding to self
    pub fn range(&self) -> (r: std::ops::Range<usize>)
        requires
            self.wf(),
        ensures
            r.start == self.index,
            r.end == self.spec_end(),
    {
        std::ops::Range { start: self.index, end: self.end_index() }
    }

    /// Returns Some of self if self is non-empty
    pub fn then(&self) -> (r: Option<Self>)
        ensures
            r == (if self.len > 0 { Some(*self) } else { None::<Range2> }),
    {
        if self.is_some() {
            Some(*self)
        } else {
            None
        }
    }

    /// Index is within self
    pub fn contains(&self, index: usize) -> (r: bool)
        requires
            self.wf(),
        ensures
            r == self.has(index as int),
    {
        self.index <= index && index < self.end_index()
    }

    /// The start of Other is within self
    pub fn contains_start(&self, other: &Self) -> (r: bool)
        requires
            self.wf(),
        ensures
            r == self.has(other.index as int),
    {
        self.contains(other.index)
    }

    /// The last index of Other is within self. An other range that ends at zero has no
    /// last index, and is never contained.
    pub fn contains_last(&self, other: &Self) -> (r: bool)
        requires
            self.wf(),
            other.wf(),
        ensures
            r == (other.spec_end() > 0 && self.has(other.spec_end() - 1)),
    {
        if other.end_index() > 0 {
            let other_last = other.end_index() - 1;
            self.index <= other_last && other_last < self.end_index()
        } else {
            // an other range that ends at zero lies before any start
            self.index < other.end_index() && other.end_index() <= self.end_index()
        }
    }

    /// Other is within self.
    ///
    /// A caret at the end index of self does not belong in self.
    pub fn contains_range(&self, other: &Self) -> (r: bool)
        requires
            self.wf(),
            other.wf(),
        ensures
            r == (if other.len == 0 {
                self.index <= other.index && other.spec_end() < self.spec_end()
            } else {
                self.index <= other.index && other.spec_end() <= self.spec_end()
            }),
    {
        if other.is_caret() {
            // in the case of text editing, if the position is caret and is at the end index,
            // this means it doesn't belong in the range
            self.index <= other.index && other.end_index() < self.end_index()
        } else {
            self.index <= other.index && other.end_index() <= self.end_index()
        }
    }

    /// Self is within Other.
    ///
    /// A caret at the end index of other does not belong in other.
    pub fn contained_in(&self, other: &Self) -> (r: bool)
        requires
            self.wf(),
            other.wf(),
        ensures
            r == other.contains_range_spec(*self),
    {
        if self.is_caret() {
            other.index <= self.index && self.end_index() < other.end_index()
        } else {
            other.index <= self.index && self.end_index() <= other.end_index()
        }
    }

    /// What `contains_range` computes: other is within self.
    pub open spec fn contains_range_spec(self, other: Range2) -> bool {
        if other.len == 0 {
            self.index <= other.index && other.spec_end() < self.spec_end()
        } else {
            self.index <= other.index && other.spec_end() <= self.spec_end()
        }
    }

    /// Returns true if the index follows self: it comes at or after the end of self.
    pub fn follows_index(&self, index: usize) -> (r: bool)
        requires
            self.wf(),
        ensures
            r == (self.spec_end() <= index),
    {
        self.end_index() <= index
    }

    /// Returns true if the index preceeds self: it comes before the start of self.
    pub fn preceeds_index(&self, index: usize) -> (r: bool)
        ensures
            r == (index < self.index),
    {
        index < self.index
    }

    /// Returns true if other follows self: it starts at or after the end of self.
    pub fn follows(&self, other: &Self) -> (r: bool)
        requires
            self.wf(),
        ensures
            r == (self.spec_end() <= other.index),
    {
        self.end_index() <= other.index
    }

    /// Returns true if other preceeds self: it ends at or before the start of self.
    pub fn preceeds(&self, other: &Self) -> (r: bool)
        requires
            other.wf(),
        ensures
            r == (other.spec_end() <= self.index),
    {
        other.end_index() <= self.index
    }

    /// Gets the range following self, starting from the end of self and spanning a certain length
    pub fn get_following(&self, following_len: usize) -> (r: Self)
        requires
            self.wf(),
        ensures
            r == (Range2 { index: self.spec_end() as usize, len: following_len }),
    {
        Self::new(self.end_index(), following_len)
    }

    /// Gets the range preceeding self, starting from zero and ending at the beginning of self
    pub fn get_preceeding(&self) -> (r: Self)
        ensures
            r == (Range2 { index: 0, len: self.index }),
    {
        Self::new(0, self.index)
    }
}

impl From<std::ops::Range<usize>> for Range2 {
    fn from(value: std::ops::Range<usize>) -> (r: Self) {
        Self::from_bounds(value.start, value.end)
    }
}

impl vstd::std_specs::convert::FromSpecImpl<std::ops::Range<usize>> for Range2 {
    open spec fn obeys_from_spec() -> bool {
        true
    }

    open spec fn from_spec(v: std::ops::Range<usize>) -> Range2 {
        Range2::spec_from_bounds(v.start as int, v.end as int)
    }
}

} // verus!
