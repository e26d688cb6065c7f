//! Assertions that hand back an error value instead of aborting.
//!
//! Each assertion checks one condition. Where it holds, the checked value
//! comes back; where it does not, an error value comes back that holds what
//! was checked, and that the caller may inspect, compare, render or pass on.

use core::ops::Range;
use vstd::prelude::*;
use vstd::std_specs::cmp::{PartialEqSpec, PartialOrdSpec};

pub mod joiner;
pub mod laws;
pub mod message;
pub mod mismatch;
pub mod outside;
pub mod unknown;

pub use joiner::{join, join_texts, FormatError};
pub use message::{goof, Goof};
pub use mismatch::{mismatch_message, Mismatch};
pub use outside::{above_message, below_message, Outside};
pub use unknown::{is_known, unknown_message, Unknown};

use outside::within;
use unknown::known;

verus! {

/// Checks that `actual` equals `expected`. Where it does, `expected` comes
/// back; where it does not, both come back in a [`Mismatch`].
pub fn assert_eq<T: Copy + Eq>(expected: &T, actual: &T) -> (res: Result<T, Mismatch<T>>)
    ensures
        res == Ok::<T, Mismatch<T>>(*expected) || res == Err::<T, Mismatch<T>>(
            Mismatch { expected: *expected, actual: *actual },
        ),
        T::obeys_eq_spec() ==> (res is Ok <==> actual.eq_spec(expected)),
        T::obeys_eq_spec() ==> (res matches Err(e) ==> e.well_formed()),
{
    if *actual == *expected {
        Ok(*expected)
    } else {
        Err(Mismatch { expected: *expected, actual: *actual })
    }
}

/// Checks that `value` is greater than `range.start` and not greater than
/// `range.end`. Where it is, `value` comes back; where it is not, the bounds
/// and the value come back in an [`Outside`].
pub fn assert_in<T: Ord + Copy>(value: &T, range: &Range<T>) -> (res: Result<T, Outside<T>>)
    ensures
        res == Ok::<T, Outside<T>>(*value) || res == Err::<T, Outside<T>>(
            Outside { range: *range, value: *value },
        ),
        T::obeys_partial_cmp_spec() ==> (res is Ok <==> within(*value, *range)),
        T::obeys_partial_cmp_spec() ==> (res matches Err(e) ==> e.well_formed()),
{
    if *value > range.start && *value <= range.end {
        Ok(*value)
    } else {
        Err(Outside { range: Range { start: range.start, end: range.end }, value: *value })
    }
}

/// Checks that `value` equals one of `knowns`. Where it does, `value` comes
/// back; where it does not, it comes back in an [`Unknown`] that refers to
/// `knowns`.
pub fn assert_known_enum<'a, T: Eq>(knowns: &'a [T], value: T) -> (res: Result<T, Unknown<'a, T>>)
    ensures
        res == Ok::<T, Unknown<'a, T>>(value) || res == Err::<T, Unknown<'a, T>>(
            Unknown { knowns: Some(knowns), value },
        ),
        T::obeys_eq_spec() ==> (res is Ok <==> known(knowns@, value)),
        T::obeys_eq_spec() ==> (res matches Err(e) ==> e.well_formed()),
        knowns@.len() == 0 ==> res is Err,
{
    if is_known(knowns, &value) {
        Ok(value)
    } else {
        Err(Unknown { knowns: Some(knowns), value })
    }
}

/// Checks that `value` equals one of `knowns`. Where it does, `value` comes
/// back; where it does not, it comes back in an [`Unknown`] that does not
/// refer to `knowns`.
pub fn assert_known<'a, T: Eq>(knowns: &'a [T], value: T) -> (res: Result<T, Unknown<'a, T>>)
    ensures
        res == Ok::<T, Unknown<'a, T>>(value) || res == Err::<T, Unknown<'a, T>>(
            Unknown { knowns: None, value },
        ),
        T::obeys_eq_spec() ==> (res is Ok <==> known(knowns@, value)),
        knowns@.len() == 0 ==> res is Err,
{
    if is_known(knowns, &value) {
        Ok(value)
    } else {
        Err(Unknown { knowns: None, value })
    }
}

} // verus!
