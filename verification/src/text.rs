//! Text helpers: substring search and the textual form of an identifier.

use vstd::prelude::*;

verus! {

/// `needle` stands in `hay` starting at index `at`.
pub open spec fn occurs_at(needle: Seq<char>, hay: Seq<char>, at: int) -> bool {
    &&& 0 <= at
    &&& at + needle.len() <= hay.len()
    &&& hay.subrange(at, at + needle.len()) == needle
}

/// `needle` stands somewhere in `hay`.
pub open spec fn is_infix(needle: Seq<char>, hay: Seq<char>) -> bool {
    exists|at: int| occurs_at(needle, hay, at)
}

/// A text placed between any two others occurs in the whole.
pub proof fn lemma_infix_of_concat(before: Seq<char>, needle: Seq<char>, after: Seq<char>)
    ensures
        is_infix(needle, before + needle + after),
{
    let hay = before + needle + after;
    let at = before.len() as int;
    assert(hay.subrange(at, at + needle.len()) =~= needle);
    assert(occurs_at(needle, hay, at));
}

/// Tells whether `needle` matches `hay` at `at`.
fn matches_at(hay: &str, needle: &str, at: usize, hay_len: usize, needle_len: usize) -> (same:
    bool)
    requires
        hay_len == hay@.len(),
        needle_len == needle@.len(),
        at + needle_len <= hay_len,
    ensures
        same == occurs_at(needle@, hay@, at as int),
{
    let mut k: usize = 0;
    while k < needle_len
        invariant
            k <= needle_len,
            hay_len == hay@.len(),
            needle_len == needle@.len(),
            at + needle_len <= hay_len,
            forall|j: int| 0 <= j < k ==> hay@[at + j] == needle@[j],
        decreases needle_len - k,
    {
        if hay.get_char(at + k) != needle.get_char(k) {
            return false;
        }
        k += 1;
    }
    assert(hay@.subrange(at as int, at + needle_len) =~= needle@);
    true
}

/// Tells whether `needle` occurs in `hay` as a run of consecutive characters.
pub fn contains(hay: &str, needle: &str) -> (found: bool)
    ensures
        found == is_infix(needle@, hay@),
{
    let hay_len = hay.unicode_len();
    let needle_len = needle.unicode_len();
    if needle_len > hay_len {
        return false;
    }
    let last = hay_len - needle_len;
    let mut at: usize = 0;
    loop
        invariant
            at <= last,
            last == hay_len - needle_len,
            hay_len == hay@.len(),
            needle_len == needle@.len(),
            needle_len <= hay_len,
            forall|j: int| 0 <= j < at ==> !occurs_at(needle@, hay@, j),
        decreases last - at,
    {
        if matches_at(hay, needle, at, hay_len, needle_len) {
            return true;
        }
        if at == last {
            return false;
        }
        at += 1;
    }
}

/// The lower-case hexadecimal digit for a value below sixteen.
pub open spec fn hex_digit(value: int) -> char {
    seq!['0', '1', '2', '3', '4', '5', '6', '7', '8', '9', 'a', 'b', 'c', 'd', 'e', 'f'][value]
}

/// The `index`-th of the 32 four-bit groups of `id`, the most significant first.
pub open spec fn nibble(id: u128, index: int) -> int {
    ((id >> ((4 * (31 - index)) as u128)) & 0xf) as int
}

/// The character at `position` of the 36-character hyphenated form of `id`:
/// hyphens after 8, 12, 16 and 20 digits, the digits of `id` in between.
pub open spec fn hyphenated_char(id: u128, position: int) -> char {
    if position == 8 || position == 13 || position == 18 || position == 23 {
        '-'
    } else if position < 8 {
        hex_digit(nibble(id, position))
    } else if position < 13 {
        hex_digit(nibble(id, position - 1))
    } else if position < 18 {
        hex_digit(nibble(id, position - 2))
    } else if position < 23 {
        hex_digit(nibble(id, position - 3))
    } else {
        hex_digit(nibble(id, position - 4))
    }
}

/// The hyphenated lower-case form of a 128-bit identifier, such as
/// `a1a2a3a4-b1b2-c1c2-d1d2-d3d4d5d6d7d8`.
pub open spec fn hyphenated_text(id: u128) -> Seq<char> {
    Seq::new(36, |position: int| hyphenated_char(id, position))
}

/// Renders an identifier with `uuid::Uuid::from_u128` and the `Display` impl of
/// `uuid::Uuid`.
///
/// Trusted: the crate documents that `from_u128` keeps the value's big-endian
/// bytes and that `Display` writes them as 32 lower-case hexadecimal digits in
/// groups of 8, 4, 4, 4 and 12 with hyphens between.
#[verifier::external_body]
pub(crate) fn hyphenated(id: u128) -> (text: String)
    ensures
        text@ == hyphenated_text(id),
{
    uuid::Uuid::from_u128(id).to_string()
}

} // verus!
