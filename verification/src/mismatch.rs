//! The error reported when two values that must be equal differ.

use crate::joiner::renders_as;
use core::fmt::Display;
use vstd::prelude::*;
use vstd::std_specs::cmp::PartialEqSpec;
use vstd::string::*;

verus! {

/// Two values that were required to be equal and were not.
#[derive(PartialEq, Eq, Copy, Debug)]
pub struct Mismatch<T: Copy + Eq> {
    /// The value that was required.
    pub expected: T,
    /// The value that was found.
    pub actual: T,
}

impl<T: Copy + Eq> Clone for Mismatch<T> {
    fn clone(&self) -> (copy: Self)
        ensures
            copy == *self,
    {
        *self
    }
}

impl<T: Copy + Eq> Mismatch<T> {
    /// Whether the two values differ, as an error of this kind says they do.
    pub open spec fn well_formed(&self) -> bool {
        !self.actual.eq_spec(&self.expected)
    }
}

/// The sentence that reports a mismatch, given both renderings.
pub open spec fn mismatch_text(expected: Seq<char>, actual: Seq<char>) -> Seq<char> {
    "Expected "@ + expected + ", but got "@ + actual
}

/// Writes the sentence that reports a mismatch, given both renderings.
pub fn mismatch_message(expected: &str, actual: &str) -> (text: String)
    ensures
        text@ == mismatch_text(expected@, actual@),
{
    let mut text = String::from_str("Expected ");
    text.append(expected);
    text.append(", but got ");
    text.append(actual);
    text
}

impl<T: Copy + Eq + Display> Mismatch<T> {
    /// Whether `text` is the sentence that reports this mismatch, for some
    /// rendering of each of the two values.
    pub open spec fn reported_as(&self, text: Seq<char>) -> bool {
        exists|expected: Seq<char>, actual: Seq<char>|
            #![trigger renders_as(self.expected, expected), renders_as(self.actual, actual)]
            renders_as(self.expected, expected) && renders_as(self.actual, actual) && text
                == mismatch_text(expected, actual)
    }

    /// The sentence that reports this mismatch.
    ///
    /// The values are rendered with `to_string`, which aborts where a
    /// `Display` returns an error.
    pub fn display(&self) -> (text: String)
        ensures
            self.reported_as(text@),
    {
        let expected = self.expected.to_string();
        let actual = self.actual.to_string();
        assert(renders_as(self.expected, expected@) && renders_as(self.actual, actual@));
        mismatch_message(expected.as_str(), actual.as_str())
    }
}

} // verus!
