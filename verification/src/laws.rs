//! What holds of the assertions and of the joiner whatever they are given.
//!
//! A law that speaks of the outcome of a call takes the outcome as a
//! parameter and asks, with `call_ensures`, that it be one that the call can
//! give. The laws on equality ask that `==` on the type is the relation
//! `eq_spec`, and those on ranges that its comparisons are `partial_cmp_spec`.

use crate::joiner::{join, joined, renders_as, renders_each, FormatError};
use crate::mismatch::Mismatch;
use crate::outside::Outside;
use crate::unknown::Unknown;
use crate::{assert_in, assert_known, assert_known_enum};
use core::fmt::Display;
use core::ops::Range;
use vstd::laws_cmp::{obeys_cmp, obeys_cmp_ord};
use vstd::prelude::*;
use vstd::std_specs::cmp::{OrdSpec, PartialEqSpec, PartialOrdSpec};

verus! {

/// A single text joins to itself, whatever the separator.
pub proof fn law_joined_single(text: Seq<char>, separator: Seq<char>)
    ensures
        joined(seq![text], separator) == text,
{
}

/// Three texts join to the first, the separator, the second, the separator
/// and the third.
pub proof fn law_joined_three(
    first: Seq<char>,
    second: Seq<char>,
    third: Seq<char>,
    separator: Seq<char>,
)
    ensures
        joined(seq![first, second, third], separator) == first + separator + second + separator
            + third,
{
    let all = seq![first, second, third];
    assert(all.drop_last() =~= seq![first, second]);
    assert(all.drop_last().drop_last() =~= seq![first]);
    reveal_with_fuel(joined, 3);
}

/// Joining a sequence of one value gives a rendering of that value alone,
/// whatever the separator.
pub proof fn law_join_single<T: Display>(
    items: &[T],
    separator: &'static str,
    res: Result<String, FormatError>,
)
    requires
        items@.len() == 1,
        call_ensures(join::<T>, (items, separator), res),
    ensures
        res matches Ok(s) && renders_as(items@[0], s@),
{
}

/// Joining a sequence of three values gives a rendering of the first, the
/// separator, a rendering of the second, the separator and a rendering of the
/// third.
pub proof fn law_join_three<T: Display>(
    items: &[T],
    separator: &'static str,
    res: Result<String, FormatError>,
)
    requires
        items@.len() == 3,
        call_ensures(join::<T>, (items, separator), res),
    ensures
        res matches Ok(s) && exists|first: Seq<char>, second: Seq<char>, third: Seq<char>|
            #![trigger renders_as(items@[0], first), renders_as(items@[1], second), renders_as(items@[2], third)]
            renders_as(items@[0], first) && renders_as(items@[1], second) && renders_as(
                items@[2],
                third,
            ) && s@ == first + separator@ + second + separator@ + third,
{
    let s = res->Ok_0;
    let texts = choose|texts: Seq<Seq<char>>| #[trigger]
        renders_each(items@, texts) && s@ == joined(texts, separator@);
    assert(texts =~= seq![texts[0], texts[1], texts[2]]);
    law_joined_three(texts[0], texts[1], texts[2], separator@);
    assert(renders_as(items@[0], texts[0]) && renders_as(items@[1], texts[1]) && renders_as(
        items@[2],
        texts[2],
    ));
}

/// Both membership assertions succeed on the same inputs; where they fail,
/// the one refers to the known values and the other does not.
pub proof fn law_known_variants_agree<'a, T: Eq>(
    knowns: &'a [T],
    value: T,
    kept: Result<T, Unknown<'a, T>>,
    dropped: Result<T, Unknown<'a, T>>,
)
    requires
        T::obeys_eq_spec(),
        call_ensures(assert_known_enum::<T>, (knowns, value), kept),
        call_ensures(assert_known::<T>, (knowns, value), dropped),
    ensures
        kept is Ok <==> dropped is Ok,
        kept matches Err(e) ==> e.knowns == Some(knowns) && e.value == value,
        dropped matches Err(e) ==> e.knowns is None && e.value == value,
{
}

/// Every error that the range assertion gives can be displayed.
pub proof fn law_assert_in_errors_display<T: Ord + Copy + Display>(
    value: &T,
    range: &Range<T>,
    res: Result<T, Outside<T>>,
)
    requires
        T::obeys_partial_cmp_spec(),
        call_ensures(assert_in::<T>, (value, range), res),
        res is Err,
    ensures
        call_requires(Outside::<T>::display, (&res->Err_0,)),
{
}

/// Where the comparisons of the type make a total order, a value that the
/// bounds reject is at or above the upper bound, or at or below the lower
/// one: the two cases that the two sentences of an error tell apart.
pub proof fn law_outside_is_above_or_below<T: Ord + Copy>(error: Outside<T>)
    requires
        obeys_cmp::<T>(),
        error.well_formed(),
    ensures
        error.is_above() || error.is_below(),
{
    reveal(obeys_cmp_ord);
    assert(error.value.partial_cmp_spec(&error.range.start) == Some(
        error.value.cmp_spec(&error.range.start),
    ));
    assert(error.value.partial_cmp_spec(&error.range.end) == Some(
        error.value.cmp_spec(&error.range.end),
    ));
}

/// Asserting the same equality twice gives the same result.
pub proof fn law_assert_eq_repeats<T: Copy + Eq>(
    expected: &T,
    actual: &T,
    first: Result<T, Mismatch<T>>,
    second: Result<T, Mismatch<T>>,
)
    requires
        T::obeys_eq_spec(),
        call_ensures(crate::assert_eq::<T>, (expected, actual), first),
        call_ensures(crate::assert_eq::<T>, (expected, actual), second),
    ensures
        first == second,
{
}

/// Asserting the same value in the same range twice gives the same result.
pub proof fn law_assert_in_repeats<T: Ord + Copy>(
    value: &T,
    range: &Range<T>,
    first: Result<T, Outside<T>>,
    second: Result<T, Outside<T>>,
)
    requires
        T::obeys_partial_cmp_spec(),
        call_ensures(assert_in::<T>, (value, range), first),
        call_ensures(assert_in::<T>, (value, range), second),
    ensures
        first == second,
{
}

/// Asserting twice that the same value is among the same known values, the
/// error to refer to them, gives the same result.
pub proof fn law_assert_known_enum_repeats<'a, T: Eq>(
    knowns: &'a [T],
    value: T,
    first: Result<T, Unknown<'a, T>>,
    second: Result<T, Unknown<'a, T>>,
)
    requires
        T::obeys_eq_spec(),
        call_ensures(assert_known_enum::<T>, (knowns, value), first),
        call_ensures(assert_known_enum::<T>, (knowns, value), second),
    ensures
        first == second,
{
}

/// Asserting twice that the same value is among the same known values gives
/// the same result.
pub proof fn law_assert_known_repeats<'a, T: Eq>(
    knowns: &'a [T],
    value: T,
    first: Result<T, Unknown<'a, T>>,
    second: Result<T, Unknown<'a, T>>,
)
    requires
        T::obeys_eq_spec(),
        call_ensures(assert_known::<T>, (knowns, value), first),
        call_ensures(assert_known::<T>, (knowns, value), second),
    ensures
        first == second,
{
}

} // verus!
