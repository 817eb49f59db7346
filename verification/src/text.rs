//! Lists of strings as lists of their characters.

use vstd::prelude::*;

verus! {

/// The words as plain sequences of characters, in order.
pub open spec fn texts(words: Seq<String>) -> Seq<Seq<char>> {
    Seq::new(words.len(), |i: int| words[i]@)
}

/// Whether `part` stands somewhere inside `whole`, unbroken.
pub open spec fn mentions(whole: Seq<char>, part: Seq<char>) -> bool {
    exists|from: int|
        0 <= from && from + part.len() <= whole.len() && #[trigger] whole.subrange(
            from,
            from + part.len() as int,
        ) == part
}

/// A text mentions what stands between its beginning and its end.
pub proof fn lemma_mentions_middle(head: Seq<char>, part: Seq<char>, tail: Seq<char>)
    ensures
        mentions(head + part + tail, part),
{
    let whole = head + part + tail;
    assert(whole.subrange(head.len() as int, head.len() as int + part.len()) =~= part);
}

} // verus!
