//! Character-level text utilities: substring search and line splitting.

use vstd::prelude::*;
use vstd::string::*;
use vstd::std_specs::iter::IteratorSpec;

verus! {

/// Whether `needle` occurs in `hay` starting at position `at`.
pub open spec fn occurs_at(hay: Seq<char>, needle: Seq<char>, at: int) -> bool {
    &&& 0 <= at
    &&& at + needle.len() <= hay.len()
    &&& hay.subrange(at, at + needle.len()) == needle
}

/// Whether `needle` occurs anywhere in `hay`.
pub open spec fn contains(hay: Seq<char>, needle: Seq<char>) -> bool {
    exists|at: int| occurs_at(hay, needle, at)
}

/// Whether `hay` ends with `needle`.
pub open spec fn ends_with(hay: Seq<char>, needle: Seq<char>) -> bool {
    occurs_at(hay, needle, hay.len() - needle.len())
}

/// The characters of a string slice, in order.
pub fn to_chars(s: &str) -> (v: Vec<char>)
    ensures
        v@ == s@,
{
    broadcast use vstd::string::group_string_axioms;

    let mut it = s.chars();
    let mut v: Vec<char> = Vec::new();
    loop
        invariant
            it.obeys_prophetic_iter_laws(),
            it.decrease() is Some,
            v@ + it.remaining() == s@,
        ensures
            v@ == s@,
        decreases it.decrease()->0,
    {
        match it.next() {
            Some(c) => {
                v.push(c);
            },
            None => {
                break;
            },
        }
    }
    v
}

/// Whether `needle` stands in `hay` at position `at`.
pub fn chars_occur_at(hay: &Vec<char>, needle: &Vec<char>, at: usize) -> (r: bool)
    requires
        at + needle.len() <= hay.len(),
    ensures
        r == occurs_at(hay@, needle@, at as int),
{
    let ghost window = hay@.subrange(at as int, at + needle.len());
    let mut j: usize = 0;
    while j < needle.len()
        invariant
            j <= needle.len(),
            at + needle.len() <= hay.len(),
            window == hay@.subrange(at as int, at + needle.len()),
            forall|k: int| 0 <= k < j ==> window[k] == needle@[k],
        decreases needle.len() - j,
    {
        if hay[at + j] != needle[j] {
            assert(window[j as int] != needle@[j as int]);
            return false;
        }
        j += 1;
    }
    assert(window =~= needle@);
    true
}

/// Whether `needle` occurs anywhere in `hay`.
pub fn chars_contain(hay: &Vec<char>, needle: &Vec<char>) -> (r: bool)
    ensures
        r == contains(hay@, needle@),
{
    if needle.len() > hay.len() {
        return false;
    }
    let last: usize = hay.len() - needle.len();
    let mut at: usize = 0;
    while at < last
        invariant
            at <= last,
            last == hay.len() - needle.len(),
            forall|k: int| 0 <= k < at ==> !occurs_at(hay@, needle@, k),
        decreases last - at,
    {
        if chars_occur_at(hay, needle, at) {
            return true;
        }
        at += 1;
    }
    chars_occur_at(hay, needle, last)
}

/// Whether `hay` ends with `needle`.
pub fn chars_end_with(hay: &Vec<char>, needle: &Vec<char>) -> (r: bool)
    ensures
        r == ends_with(hay@, needle@),
{
    if needle.len() > hay.len() {
        return false;
    }
    chars_occur_at(hay, needle, hay.len() - needle.len())
}

/// Whether `needle` occurs anywhere in `hay`.
pub fn str_contains(hay: &str, needle: &str) -> (r: bool)
    ensures
        r == contains(hay@, needle@),
{
    chars_contain(&to_chars(hay), &to_chars(needle))
}

/// Whether `hay` ends with `needle`.
pub fn str_ends_with(hay: &str, needle: &str) -> (r: bool)
    ensures
        r == ends_with(hay@, needle@),
{
    chars_end_with(&to_chars(hay), &to_chars(needle))
}

/// A suffix is a substring: whatever a text ends with, it contains.
pub proof fn lemma_suffix_is_substring(hay: Seq<char>, needle: Seq<char>)
    requires
        ends_with(hay, needle),
    ensures
        contains(hay, needle),
{
    assert(occurs_at(hay, needle, hay.len() - needle.len()));
}

/// Whether the first line of `s` ends at `end`: no line feed stands before
/// it, and one stands at it unless the text ends there.
pub open spec fn is_line_end(s: Seq<char>, end: int) -> bool {
    &&& 0 <= end <= s.len()
    &&& forall|j: int| 0 <= j < end ==> s[j] != '\n'
    &&& (end < s.len() ==> s[end] == '\n')
}

/// The line that ends at `end`, without its terminator: a carriage return
/// directly before the line feed belongs to the terminator.
pub open spec fn line_before(s: Seq<char>, end: int) -> Seq<char> {
    if 0 < end < s.len() && s[end - 1] == '\r' {
        s.subrange(0, end - 1)
    } else {
        s.subrange(0, end)
    }
}

/// The first line of `s` without its terminator, or nothing where `s` is
/// empty.
pub open spec fn spec_first_line(s: Seq<char>) -> Option<Seq<char>> {
    if s.len() == 0 {
        None
    } else {
        Some(line_before(s, choose|end: int| is_line_end(s, end)))
    }
}

/// The first line of a text ends at one place only.
pub proof fn lemma_line_end_unique(s: Seq<char>, a: int, b: int)
    requires
        is_line_end(s, a),
        is_line_end(s, b),
    ensures
        a == b,
{
    if a < b {
        assert(s[a] == '\n');
    } else if b < a {
        assert(s[b] == '\n');
    }
}

/// The first line of `s` without its line terminator.
pub fn first_line(s: &str) -> (line: Option<String>)
    ensures
        match line {
            Some(l) => spec_first_line(s@) == Some(l@),
            None => spec_first_line(s@) is None,
        },
{
    let chars = to_chars(s);
    if chars.len() == 0 {
        return None;
    }
    let mut end: usize = 0;
    while end < chars.len() && chars[end] != '\n'
        invariant
            end <= chars.len(),
            forall|j: int| 0 <= j < end ==> chars@[j] != '\n',
        decreases chars.len() - end,
    {
        end += 1;
    }
    proof {
        assert(is_line_end(s@, end as int));
        lemma_line_end_unique(s@, end as int, choose|e: int| is_line_end(s@, e));
    }
    let stop: usize = if 0 < end && end < chars.len() && chars[end - 1] == '\r' {
        end - 1
    } else {
        end
    };
    Some(String::from_str(s.substring_char(0, stop)))
}

/// What lossy UTF-8 decoding makes of `bytes`: each invalid sequence becomes
/// the replacement character.
pub uninterp spec fn utf8_lossy(bytes: Seq<u8>) -> Seq<char>;

/// `String::from_utf8_lossy`, with the result owned; the contract gives the
/// decoded text its name and claims nothing more of it.
#[verifier::external_body]
pub(crate) fn decode_lossy(bytes: &[u8]) -> (s: String)
    ensures
        s@ == utf8_lossy(bytes@),
{
    String::from_utf8_lossy(bytes).into_owned()
}

} // verus!
