//! The simplest error: a message and nothing else.

use vstd::prelude::*;
use vstd::string::*;

verus! {

/// What `char::is_whitespace` answers for `c`: whether `c` has the Unicode
/// property `White_Space`.
pub uninterp spec fn white_space(c: char) -> bool;

/// Calls `char::is_whitespace`. Taken on trust, not proved: the answer is the
/// one that [`white_space`] names, so it depends on the character alone.
#[verifier::external_body]
fn is_white_space(c: char) -> (white: bool)
    ensures
        white == white_space(c),
{
    c.is_whitespace()
}

/// `text` without the white space that leads and trails it.
pub open spec fn trimmed(text: Seq<char>) -> Seq<char>
    decreases text.len(),
{
    if text.len() == 0 {
        text
    } else if white_space(text.first()) {
        trimmed(text.drop_first())
    } else if white_space(text.last()) {
        trimmed(text.drop_last())
    } else {
        text
    }
}

/// What is left of `text` between `from` and `to` is `text` trimmed, where
/// white space alone stands before `from` and from `to` on, and none at
/// either end of what is left.
proof fn lemma_trimmed_between(text: Seq<char>, from: int, to: int)
    requires
        0 <= from <= to <= text.len(),
        forall|j: int| 0 <= j < from ==> white_space(#[trigger] text[j]),
        forall|j: int| to <= j < text.len() ==> white_space(#[trigger] text[j]),
        from < to ==> !white_space(text[from]) && !white_space(text[to - 1]),
    ensures
        trimmed(text) == text.subrange(from, to),
    decreases text.len(),
{
    if text.len() == 0 {
        assert(text.subrange(from, to) =~= text);
    } else if white_space(text.first()) {
        let rest = text.drop_first();
        if from == 0 {
            lemma_trimmed_between(rest, 0, 0);
            assert(text.subrange(from, to) =~= rest.subrange(0, 0));
        } else {
            lemma_trimmed_between(rest, from - 1, to - 1);
            assert(text.subrange(from, to) =~= rest.subrange(from - 1, to - 1));
        }
    } else if white_space(text.last()) {
        let rest = text.drop_last();
        lemma_trimmed_between(rest, from, to);
        assert(text.subrange(from, to) =~= rest.subrange(from, to));
    } else {
        assert(text.subrange(from, to) =~= text);
    }
}

/// The part of `text` that is left without the white space around it.
fn trim<'a>(text: &'a str) -> (kept: &'a str)
    ensures
        kept@ == trimmed(text@),
{
    let length = text.unicode_len();
    let mut from: usize = 0;
    let mut to: usize = 0;
    let mut i: usize = 0;
    for c in it: text.chars()
        invariant
            i == it.index(),
            it.seq() == text@,
            text@.len() == length,
            from <= to <= i,
            forall|j: int| 0 <= j < from ==> white_space(#[trigger] text@[j]),
            to == 0 ==> from == 0,
            to > 0 ==> from < to && !white_space(text@[from as int]) && !white_space(
                text@[to - 1],
            ),
            forall|j: int| to <= j < i ==> white_space(#[trigger] text@[j]),
    {
        if !is_white_space(c) {
            if to == 0 {
                from = i;
            }
            to = i + 1;
        }
        i += 1;
    }
    proof {
        lemma_trimmed_between(text@, from as int, to as int);
    }
    text.substring_char(from, to)
}

/// An error that is a message.
#[derive(Debug)]
pub struct Goof<'a> {
    message: &'a str,
}

impl<'a> View for Goof<'a> {
    type V = Seq<char>;

    closed spec fn view(&self) -> Seq<char> {
        self.message@
    }
}

impl<'a> Goof<'a> {
    /// The message without the white space around it.
    pub fn display(&self) -> (text: String)
        ensures
            text@ == trimmed(self@),
    {
        String::from_str(trim(self.message))
    }
}

/// Makes an error of `message`.
pub fn goof<'a>(message: &'a str) -> (made: Goof<'a>)
    ensures
        made@ == message@,
{
    Goof { message }
}

} // verus!
