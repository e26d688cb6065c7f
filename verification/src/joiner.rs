//! Joining the renderings of a sequence of values with a separator.
//!
//! A value is rendered by its `Display`. What `Display` writes is the type's
//! own affair, so the contracts here speak of it through [`renders_as`] and
//! fix everything else: the order, the separators, and when there is a result.
//!
//! Rendering goes through `to_string`. std asks of a `Display` that it fail
//! only where the sink it writes to fails, and a `String` never does; where
//! one returns an error all the same, `to_string` aborts, and no error value
//! comes back.

use core::fmt::Display;
use vstd::prelude::*;
use vstd::string::*;

verus! {

/// Why there is no text.
#[derive(PartialEq, Eq, Clone, Copy, Debug)]
pub enum FormatError {
    /// The sequence to join held no element.
    Empty,
}

/// Whether `text` is a rendering that the `Display` of `item` gives.
pub open spec fn renders_as<T: Display>(item: T, text: Seq<char>) -> bool {
    exists|s: String| #[trigger] to_string_from_display_ensures::<T>(&item, s) && s@ == text
}

/// Whether `texts` holds, position by position, a rendering of each of `items`.
pub open spec fn renders_each<T: Display>(items: Seq<T>, texts: Seq<Seq<char>>) -> bool {
    &&& texts.len() == items.len()
    &&& forall|i: int| 0 <= i < items.len() ==> #[trigger] renders_as(items[i], texts[i])
}

/// The texts in order, with `separator` between each two neighbours.
pub open spec fn joined(texts: Seq<Seq<char>>, separator: Seq<char>) -> Seq<char>
    decreases texts.len(),
{
    if texts.len() == 0 {
        Seq::empty()
    } else if texts.len() == 1 {
        texts[0]
    } else {
        joined(texts.drop_last(), separator) + separator + texts.last()
    }
}

/// The character sequences that the strings of `texts` hold.
pub open spec fn contents(texts: Seq<String>) -> Seq<Seq<char>> {
    Seq::new(texts.len(), |i: int| texts[i]@)
}

/// Joins texts that are already rendered: the first, then each further one
/// behind a separator. An empty sequence is an error.
pub fn join_texts(texts: &[String], separator: &str) -> (res: Result<String, FormatError>)
    ensures
        match res {
            Ok(s) => texts@.len() > 0 && s@ == joined(contents(texts@), separator@),
            Err(e) => texts@.len() == 0 && e == FormatError::Empty,
        },
{
    if texts.len() == 0 {
        return Err(FormatError::Empty);
    }
    let mut buffer = String::from_str(texts[0].as_str());
    assert(contents(texts@).take(1) =~= seq![texts@[0]@]);
    let mut i: usize = 1;
    while i < texts.len()
        invariant
            1 <= i <= texts@.len(),
            buffer@ == joined(contents(texts@).take(i as int), separator@),
        decreases texts@.len() - i,
    {
        buffer.append(separator);
        buffer.append(texts[i].as_str());
        proof {
            let upto = contents(texts@).take(i + 1);
            assert(upto.drop_last() =~= contents(texts@).take(i as int));
            assert(upto.last() == texts@[i as int]@);
        }
        i += 1;
    }
    assert(contents(texts@).take(i as int) =~= contents(texts@));
    Ok(buffer)
}

/// Renders each of `items` and joins the renderings with `separator`.
/// An empty sequence is an error, and the only one: a `Display` that returns
/// an error makes `to_string` abort, so a failed rendering is not reported.
pub fn join<T: Display>(items: &[T], separator: &'static str) -> (res: Result<String, FormatError>)
    ensures
        match res {
            Ok(s) => items@.len() > 0 && exists|texts: Seq<Seq<char>>| #[trigger]
                renders_each(items@, texts) && s@ == joined(texts, separator@),
            Err(e) => items@.len() == 0 && e == FormatError::Empty,
        },
{
    let mut texts: Vec<String> = Vec::new();
    let mut i: usize = 0;
    while i < items.len()
        invariant
            i <= items@.len(),
            texts@.len() == i,
            forall|j: int| 0 <= j < i ==> #[trigger] renders_as(items@[j], texts@[j]@),
        decreases items@.len() - i,
    {
        let text = items[i].to_string();
        texts.push(text);
        i += 1;
    }
    let res = join_texts(texts.as_slice(), separator);
    proof {
        if items@.len() > 0 {
            assert(renders_each(items@, contents(texts@)));
        }
    }
    res
}

} // verus!
