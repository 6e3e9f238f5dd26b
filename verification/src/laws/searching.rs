//! What holds of the places where a binary is looked for.

use vstd::prelude::*;

use crate::text::{joined, split_at_char};

verus! {

proof fn lemma_longer_last(parts: Seq<Seq<char>>, sep: Seq<char>, c: char)
    requires
        parts.len() > 0,
    ensures
        joined(parts.drop_last().push(parts.last().push(c)), sep) == joined(parts, sep).push(c),
{
    let longer = parts.drop_last().push(parts.last().push(c));
    assert(longer.drop_last() =~= parts.drop_last());
    assert(joined(longer, sep) =~= joined(parts, sep).push(c));
}

/// Splitting loses nothing: the parts, with the separator between each two, are the text
/// again. There is at least one part, and no separator stands in any of them.
pub proof fn splitting_is_undone_by_joining(text: Seq<char>, sep: char)
    ensures
        joined(split_at_char(text, sep), seq![sep]) == text,
        split_at_char(text, sep).len() > 0,
        forall|i: int| 0 <= i < split_at_char(text, sep).len() ==> !(#[trigger] split_at_char(text, sep)[i]).contains(sep),
    decreases text.len(),
{
    if text.len() > 0 {
        let before = split_at_char(text.drop_last(), sep);
        let parts = split_at_char(text, sep);
        splitting_is_undone_by_joining(text.drop_last(), sep);
        if text.last() == sep {
            assert(parts.drop_last() =~= before);
            assert(joined(parts, seq![sep]) =~= text);
        } else {
            lemma_longer_last(before, seq![sep], text.last());
            assert(joined(parts, seq![sep]) =~= text);
            assert forall|i: int| 0 <= i < parts.len() implies !(#[trigger] parts[i]).contains(sep) by {
                if i == parts.len() - 1 {
                    assert(!before.last().contains(sep));
                    if parts[i].contains(sep) {
                        let j = choose|j: int| 0 <= j < parts[i].len() && parts[i][j] == sep;
                        assert(j < before.last().len());
                        assert(before.last()[j] == sep);
                    }
                } else {
                    assert(parts[i] == before[i]);
                }
            }
        }
    } else {
        assert(joined(split_at_char(text, sep), seq![sep]) =~= text);
    }
}

} // verus!
