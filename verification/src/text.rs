//! Operations on text, as sequences of characters.

use vstd::prelude::*;
use vstd::utf8::{encode_utf8, is_ascii_chars, valid_utf8};

verus! {

/// `needle` stands in `hay` at position `at`.
pub open spec fn occurs_at(hay: Seq<char>, needle: Seq<char>, at: int) -> bool {
    0 <= at && at + needle.len() <= hay.len() && hay.subrange(at, at + needle.len()) == needle
}

/// `needle` stands somewhere in `hay`.
pub open spec fn contains_text(hay: Seq<char>, needle: Seq<char>) -> bool {
    exists|at: int| occurs_at(hay, needle, at)
}

/// The lower-case form of a text, by the Unicode rules.
pub uninterp spec fn lowercased(text: Seq<char>) -> Seq<char>;

/// The lower-case form of an ASCII character; any other character is its own.
pub open spec fn ascii_lower(c: char) -> char {
    if 'A' <= c && c <= 'Z' {
        (c as u32 + 32) as char
    } else {
        c
    }
}

/// The text with its ASCII letters in lower case.
pub open spec fn ascii_lowercased(text: Seq<char>) -> Seq<char> {
    text.map_values(|c: char| ascii_lower(c))
}

/// The upper-case form of an ASCII character; any other character is its own.
pub open spec fn ascii_upper(c: char) -> char {
    if 'a' <= c && c <= 'z' {
        (c as u32 - 32) as char
    } else {
        c
    }
}

/// The text with its ASCII letters in upper case.
pub open spec fn ascii_uppercased(text: Seq<char>) -> Seq<char> {
    text.map_values(|c: char| ascii_upper(c))
}

/// The characters with the Unicode property `White_Space`.
pub open spec fn white_space(c: char) -> bool {
    ||| '\u{9}' <= c <= '\u{d}'
    ||| c == ' '
    ||| c == '\u{85}'
    ||| c == '\u{a0}'
    ||| c == '\u{1680}'
    ||| '\u{2000}' <= c <= '\u{200a}'
    ||| c == '\u{2028}'
    ||| c == '\u{2029}'
    ||| c == '\u{202f}'
    ||| c == '\u{205f}'
    ||| c == '\u{3000}'
}

/// Nothing but white space.
pub open spec fn is_blank(text: Seq<char>) -> bool {
    forall|i: int| 0 <= i < text.len() ==> white_space(#[trigger] text[i])
}

/// What is read from bytes that are meant to be UTF-8, invalid ones replaced.
pub uninterp spec fn utf8_lossy(bytes: Seq<u8>) -> Seq<char>;

/// The parts of `text` between separators, at least one.
pub open spec fn split_at_char(text: Seq<char>, sep: char) -> Seq<Seq<char>>
    decreases text.len(),
{
    if text.len() == 0 {
        seq![Seq::empty()]
    } else {
        let before = split_at_char(text.drop_last(), sep);
        if text.last() == sep {
            before.push(Seq::empty())
        } else {
            before.drop_last().push(before.last().push(text.last()))
        }
    }
}

/// The texts in order, `sep` between each two.
pub open spec fn joined(parts: Seq<Seq<char>>, sep: Seq<char>) -> Seq<char>
    decreases parts.len(),
{
    if parts.len() == 0 {
        Seq::empty()
    } else if parts.len() == 1 {
        parts[0]
    } else {
        joined(parts.drop_last(), sep) + sep + parts.last()
    }
}

/// `n` blanks.
pub open spec fn blanks(n: nat) -> Seq<char> {
    Seq::new(n, |i: int| ' ')
}

/// The lower-case form of `text`: `str::to_lowercase`. The result depends on the text
/// alone. ASCII letters come out in lower case, as `str::to_ascii_lowercase` has them, and
/// other ASCII characters as they are, whatever else stands in the text. So of ASCII text
/// the result is the text with each letter `A` to `Z` in lower case. Of any text it is the
/// same whether or not the ASCII letters were put in lower case before, and an ASCII word
/// that stands in the text, once its ASCII letters are in lower case, stands in the result
/// too. What becomes of other characters is left unsaid.
#[verifier::external_body]
pub(crate) fn to_lowercase(text: &str) -> (lower: String)
    ensures
        lower@ == lowercased(text@),
        lower@ == lowercased(ascii_lowercased(text@)),
        forall|word: Seq<char>|
            is_ascii_chars(word) && #[trigger] contains_text(ascii_lowercased(text@), word) ==> contains_text(
                lower@,
                word,
            ),
        is_ascii_chars(text@) ==> lower@ == ascii_lowercased(text@),
{
    text.to_lowercase()
}

/// Whether `c` is white space: `char::is_whitespace`, which is true of just the characters
/// with the Unicode property `White_Space`, and `white_space` lists them.
#[verifier::external_body]
fn is_whitespace(c: char) -> (yes: bool)
    ensures
        yes == white_space(c),
{
    c.is_whitespace()
}

/// Reads bytes as UTF-8: `String::from_utf8_lossy`. The result depends on the bytes alone,
/// and valid UTF-8 is read as the text that it encodes.
#[verifier::external_body]
pub(crate) fn from_utf8_lossy(bytes: &[u8]) -> (text: String)
    ensures
        text@ == utf8_lossy(bytes@),
        valid_utf8(bytes@) ==> encode_utf8(text@) == bytes@,
{
    String::from_utf8_lossy(bytes).into_owned()
}

/// The characters of `text`.
pub(crate) fn chars_of(text: &str) -> (chars: Vec<char>)
    ensures
        chars@ == text@,
{
    let mut chars: Vec<char> = Vec::new();
    for c in it: text.chars()
        invariant
            it.seq() == text@,
            chars@ == text@.take(it.index() as int),
    {
        chars.push(c);
        assert(chars@ =~= text@.take(it.index() as int + 1));
    }
    assert(text@.take(text@.len() as int) =~= text@);
    chars
}

/// True where `needle` stands somewhere in `hay`.
pub(crate) fn contains(hay: &Vec<char>, needle: &str) -> (yes: bool)
    ensures
        yes == contains_text(hay@, needle@),
{
    let pattern = chars_of(needle);
    let len: usize = hay.len();
    let mut at: usize = 0;
    while at <= len && pattern.len() <= len - at
        invariant
            len == hay@.len(),
            at <= len + 1,
            pattern@ == needle@,
            forall|j: int| 0 <= j < at ==> !occurs_at(hay@, needle@, j),
        decreases len + 1 - at,
    {
        let mut i: usize = 0;
        while i < pattern.len() && hay[at + i] == pattern[i]
            invariant
                i <= pattern@.len(),
                len == hay@.len(),
                at + pattern@.len() <= len,
                forall|j: int| 0 <= j < i ==> hay@[at + j] == pattern@[j],
            decreases pattern@.len() - i,
        {
            i += 1;
        }
        if i == pattern.len() {
            assert(hay@.subrange(at as int, at + pattern@.len()) =~= pattern@);
            assert(occurs_at(hay@, needle@, at as int));
            return true;
        }
        proof {
            assert(hay@.subrange(at as int, at + pattern@.len())[i as int] == hay@[at + i]);
        }
        at += 1;
    }
    false
}

/// True where `a` and `b` are the same text.
pub(crate) fn same_text(a: &String, b: &str) -> (yes: bool)
    ensures
        yes == (a@ == b@),
{
    *a == b.to_string()
}

/// True where nothing but white space stands in `text`.
pub(crate) fn blank(text: &str) -> (yes: bool)
    ensures
        yes == is_blank(text@),
{
    let chars = chars_of(text);
    let mut i: usize = 0;
    while i < chars.len()
        invariant
            i <= chars@.len(),
            chars@ == text@,
            forall|j: int| 0 <= j < i ==> white_space(#[trigger] text@[j]),
        decreases chars@.len() - i,
    {
        if !is_whitespace(chars[i]) {
            assert(!white_space(text@[i as int]));
            return false;
        }
        i += 1;
    }
    true
}

/// What a list of strings says.
pub open spec fn strings_view(strings: Seq<String>) -> Seq<Seq<char>> {
    strings.map_values(|text: String| text@)
}

/// The parts of `text` between separators.
pub(crate) fn split(text: &str, sep: char) -> (parts: Vec<String>)
    ensures
        strings_view(parts@) == split_at_char(text@, sep),
{
    let chars = chars_of(text);
    let mut parts: Vec<String> = Vec::new();
    let mut from: usize = 0;
    let mut i: usize = 0;
    assert(text@.take(0) =~= Seq::<char>::empty());
    assert(split_at_char(text@.take(0), sep) =~= strings_view(parts@).push(text@.subrange(0, 0)));
    while i < chars.len()
        invariant
            from <= i <= chars@.len(),
            chars@ == text@,
            split_at_char(text@.take(i as int), sep) == strings_view(parts@).push(
                text@.subrange(from as int, i as int),
            ),
        decreases chars@.len() - i,
    {
        let ghost before = split_at_char(text@.take(i as int), sep);
        let ghost done = strings_view(parts@);
        assert(text@.take(i + 1).drop_last() =~= text@.take(i as int));
        if chars[i] == sep {
            let part = text.substring_char(from, i);
            parts.push(part.to_string());
            from = i + 1;
            assert(strings_view(parts@) =~= before);
            assert(text@.subrange(i + 1, i + 1) =~= Seq::<char>::empty());
        } else {
            assert(before.drop_last() =~= done);
            assert(before.last().push(chars@[i as int]) =~= text@.subrange(from as int, i + 1));
        }
        i += 1;
    }
    assert(text@.take(i as int) =~= text@);
    let ghost done = strings_view(parts@);
    let part = text.substring_char(from, i);
    parts.push(part.to_string());
    assert(strings_view(parts@) =~= done.push(text@.subrange(from as int, i as int)));
    parts
}

/// `text` with blanks in front, up to `width` characters.
pub open spec fn right_aligned(text: Seq<char>, width: nat) -> Seq<char> {
    if text.len() < width {
        blanks((width - text.len()) as nat) + text
    } else {
        text
    }
}

/// `text` with blanks behind, up to `width` characters.
pub open spec fn left_aligned(text: Seq<char>, width: nat) -> Seq<char> {
    if text.len() < width {
        text + blanks((width - text.len()) as nat)
    } else {
        text
    }
}

/// `n` blanks.
fn make_blanks(n: usize) -> (out: String)
    ensures
        out@ == blanks(n as nat),
{
    let mut out = String::new();
    let mut i: usize = 0;
    assert(out@ =~= blanks(0));
    while i < n
        invariant
            i <= n,
            out@ == blanks(i as nat),
        decreases n - i,
    {
        proof {
            reveal_strlit(" ");
        }
        out.append(" ");
        assert(out@ =~= blanks(i as nat + 1));
        i += 1;
    }
    out
}

/// `text` with blanks in front, up to `width` characters.
pub(crate) fn align_right(text: &str, width: usize) -> (out: String)
    ensures
        out@ == right_aligned(text@, width as nat),
{
    let len: usize = text.unicode_len();
    if len < width {
        let mut out = make_blanks(width - len);
        out.append(text);
        out
    } else {
        text.to_string()
    }
}

/// `text` with blanks behind, up to `width` characters.
pub(crate) fn align_left(text: &str, width: usize) -> (out: String)
    ensures
        out@ == left_aligned(text@, width as nat),
{
    let len: usize = text.unicode_len();
    let mut out = text.to_string();
    if len < width {
        let fill = make_blanks(width - len);
        out.append(fill.as_str());
    }
    out
}

} // verus!
