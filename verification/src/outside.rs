//! The error reported when a value falls outside its permitted interval.
//!
//! The interval is open below and closed above: a value is inside where it is
//! greater than `start` and not greater than `end`. So a rejected value is
//! either too large, or too small: at the lower bound or below it.

use crate::joiner::renders_as;
use core::fmt::Display;
use core::ops::Range;
use vstd::prelude::*;
use vstd::std_specs::cmp::{PartialEqSpec, PartialEqSpecImpl, PartialOrdIs, PartialOrdSpec};
use vstd::string::*;

verus! {

/// A value together with the bounds it failed to meet.
#[derive(Eq, Debug)]
pub struct Outside<T: Ord + Copy> {
    /// The bounds: `start` is excluded, `end` is included.
    pub range: Range<T>,
    /// The value that the bounds reject.
    pub value: T,
}

impl<T: Ord + Copy> Clone for Outside<T> {
    fn clone(&self) -> (copy: Self)
        ensures
            copy == *self,
    {
        Outside { range: Range { start: self.range.start, end: self.range.end }, value: self.value }
    }
}

impl<T: Ord + Copy> PartialEq for Outside<T> {
    /// Whether both errors hold equal bounds and equal values.
    fn eq(&self, other: &Self) -> (same: bool) {
        self.range.start == other.range.start && self.range.end == other.range.end && self.value
            == other.value
    }
}

impl<T: Ord + Copy> PartialEqSpecImpl for Outside<T> {
    open spec fn obeys_eq_spec() -> bool {
        T::obeys_eq_spec()
    }

    open spec fn eq_spec(&self, other: &Self) -> bool {
        self.range.start.eq_spec(&other.range.start) && self.range.end.eq_spec(&other.range.end)
            && self.value.eq_spec(&other.value)
    }
}

/// Whether `value` is greater than `range.start` and not greater than
/// `range.end`.
pub open spec fn within<T: Ord>(value: T, range: Range<T>) -> bool {
    value.is_gt(&range.start) && value.is_le(&range.end)
}

impl<T: Ord + Copy> Outside<T> {
    /// Whether the bounds reject the value, as an error of this kind says
    /// they do.
    pub open spec fn well_formed(&self) -> bool {
        !within(self.value, self.range)
    }

    /// Whether the value is at or above the upper bound.
    pub open spec fn is_above(&self) -> bool {
        self.value.is_ge(&self.range.end)
    }

    /// Whether the value is at the lower bound, which the bounds exclude, or
    /// below it.
    pub open spec fn is_below(&self) -> bool {
        self.value.is_le(&self.range.start)
    }
}

/// The sentence for a value at or above the upper bound, given both renderings.
pub open spec fn above_text(value: Seq<char>, maximum: Seq<char>) -> Seq<char> {
    "Value "@ + value + " exceeds maximum "@ + maximum
}

/// The sentence for a value at or below the lower bound, given both
/// renderings.
pub open spec fn below_text(value: Seq<char>, minimum: Seq<char>) -> Seq<char> {
    "Value "@ + value + " below minimum "@ + minimum
}

/// Writes the sentence for a value at or above the upper bound.
pub fn above_message(value: &str, maximum: &str) -> (text: String)
    ensures
        text@ == above_text(value@, maximum@),
{
    let mut text = String::from_str("Value ");
    text.append(value);
    text.append(" exceeds maximum ");
    text.append(maximum);
    text
}

/// Writes the sentence for a value at or below the lower bound.
pub fn below_message(value: &str, minimum: &str) -> (text: String)
    ensures
        text@ == below_text(value@, minimum@),
{
    let mut text = String::from_str("Value ");
    text.append(value);
    text.append(" below minimum ");
    text.append(minimum);
    text
}

impl<T: Ord + Copy + Display> Outside<T> {
    /// Whether `text` is the sentence that reports this error, for some
    /// rendering of the value and of the bound it breaks. Where the value is
    /// at or above the upper bound, the sentence names that bound as the
    /// maximum. Everywhere else it names the lower bound as the minimum: the
    /// lower bound is excluded, so a value at it gets the same sentence as a
    /// value below it.
    pub open spec fn reported_as(&self, text: Seq<char>) -> bool {
        exists|value: Seq<char>, bound: Seq<char>|
            #![trigger above_text(value, bound)]
            #![trigger below_text(value, bound)]
            renders_as(self.value, value) && if self.is_above() {
                renders_as(self.range.end, bound) && text == above_text(value, bound)
            } else {
                renders_as(self.range.start, bound) && text == below_text(value, bound)
            }
    }

    /// The sentence that reports which bound the value breaks. Every error
    /// whose bounds reject its value has one.
    ///
    /// The values are rendered with `to_string`, which aborts where a
    /// `Display` returns an error.
    pub fn display(&self) -> (text: String)
        requires
            T::obeys_partial_cmp_spec(),
            self.well_formed(),
        ensures
            self.reported_as(text@),
    {
        let value = self.value.to_string();
        assert(renders_as(self.value, value@));
        if self.value >= self.range.end {
            let bound = self.range.end.to_string();
            assert(renders_as(self.range.end, bound@));
            let text = above_message(value.as_str(), bound.as_str());
            assert(text@ == above_text(value@, bound@));
            text
        } else {
            let bound = self.range.start.to_string();
            assert(renders_as(self.range.start, bound@));
            let text = below_message(value.as_str(), bound.as_str());
            assert(text@ == below_text(value@, bound@));
            text
        }
    }
}

} // verus!
