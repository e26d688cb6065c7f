//! The error reported when a value is not among the values that are known.

use crate::joiner::{join, joined, renders_as, renders_each, FormatError};
use core::fmt::Display;
use vstd::prelude::*;
use vstd::std_specs::cmp::PartialEqSpec;
use vstd::string::*;

verus! {

/// A value that was looked for among the known values and not found.
#[derive(PartialEq, Eq, Debug)]
pub struct Unknown<'a, T: Eq> {
    /// The values that were searched, where the caller wants them reported.
    pub knowns: Option<&'a [T]>,
    /// The value that was not found.
    pub value: T,
}

impl<'a, T: Eq + Clone> Clone for Unknown<'a, T> {
    fn clone(&self) -> (copy: Self)
        ensures
            copy.knowns == self.knowns,
            cloned(self.value, copy.value),
    {
        Unknown { knowns: self.knowns, value: self.value.clone() }
    }
}

impl<'a, T: Eq + Copy> Copy for Unknown<'a, T> {

}

/// Whether some element of `knowns` equals `value`.
pub open spec fn known<T: Eq>(knowns: Seq<T>, value: T) -> bool {
    exists|i: int| 0 <= i < knowns.len() && (#[trigger] knowns[i]).eq_spec(&value)
}

impl<'a, T: Eq> Unknown<'a, T> {
    /// Whether the value is none of the known values, as far as the error
    /// holds them.
    pub open spec fn well_formed(&self) -> bool {
        self.knowns matches Some(knowns) ==> !known(knowns@, self.value)
    }
}

/// Scans `knowns` from the front for an element equal to `value`.
pub fn is_known<T: Eq>(knowns: &[T], value: &T) -> (found: bool)
    ensures
        T::obeys_eq_spec() ==> found == known(knowns@, *value),
        knowns@.len() == 0 ==> !found,
{
    let mut i: usize = 0;
    while i < knowns.len()
        invariant
            i <= knowns@.len(),
            T::obeys_eq_spec() ==> forall|j: int|
                0 <= j < i ==> !(#[trigger] knowns@[j]).eq_spec(value),
        decreases knowns@.len() - i,
    {
        if knowns[i] == *value {
            return true;
        }
        i += 1;
    }
    false
}

/// The sentence that reports an unknown value, given its rendering and, where
/// the known values are reported, their joined renderings.
pub open spec fn unknown_text(value: Seq<char>, listing: Option<Seq<char>>) -> Seq<char> {
    "The value "@ + value + " is not known"@ + match listing {
        Some(list) => " Because it's not one of ["@ + list + "]"@,
        None => "."@,
    }
}

/// Writes the sentence that reports an unknown value.
pub fn unknown_message(value: &str, listing: Option<&str>) -> (text: String)
    ensures
        text@ == unknown_text(
            value@,
            match listing {
                Some(list) => Some(list@),
                None => None,
            },
        ),
{
    let mut text = String::from_str("The value ");
    text.append(value);
    text.append(" is not known");
    match listing {
        Some(list) => {
            text.append(" Because it's not one of [");
            text.append(list);
            text.append("]");
        },
        None => {
            text.append(".");
        },
    }
    text
}

impl<'a, T: Eq + Display> Unknown<'a, T> {
    /// Whether `text` is a sentence that reports this unknown value: it lists
    /// the known values, separated by a comma and a space, where the error
    /// holds them.
    pub open spec fn reported_as(&self, text: Seq<char>) -> bool {
        exists|value: Seq<char>| #[trigger]
            renders_as(self.value, value) && match self.knowns {
                Some(knowns) => exists|texts: Seq<Seq<char>>| #[trigger]
                    renders_each(knowns@, texts) && text == unknown_text(
                        value,
                        Some(joined(texts, ", "@)),
                    ),
                None => text == unknown_text(value, None),
            }
    }

    /// The sentence that reports this unknown value. There is none where the
    /// error holds an empty sequence of known values.
    ///
    /// The values are rendered with `to_string`, which aborts where a
    /// `Display` returns an error.
    pub fn display(&self) -> (res: Result<String, FormatError>)
        ensures
            match res {
                Ok(text) => self.reported_as(text@) && !(self.knowns matches Some(knowns)
                    && knowns@.len() == 0),
                Err(e) => e == FormatError::Empty && (self.knowns matches Some(knowns)
                    && knowns@.len() == 0),
            },
    {
        let value = self.value.to_string();
        assert(renders_as(self.value, value@));
        match self.knowns {
            Some(knowns) => {
                match join(knowns, ", ") {
                    Ok(list) => {
                        let text = unknown_message(value.as_str(), Some(list.as_str()));
                        proof {
                            let texts = choose|texts: Seq<Seq<char>>|
                                renders_each(knowns@, texts) && list@ == joined(texts, ", "@);
                            assert(renders_each(knowns@, texts));
                        }
                        Ok(text)
                    },
                    Err(e) => Err(e),
                }
            },
            None => Ok(unknown_message(value.as_str(), None)),
        }
    }
}

} // verus!
