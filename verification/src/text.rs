//! Predicates on byte strings: what counts as readable header text, where one
//! byte string occurs inside another, and equality up to ASCII letter case.

use vstd::prelude::*;
use vstd::string::*;

verus! {

/// A horizontal tab or a printable ASCII character.
pub open spec fn visible_ascii(b: u8) -> bool {
    b == 9 || (32 <= b && b < 127)
}

/// Every byte of `s` is a tab or printable ASCII, so `s` reads as text.
pub open spec fn is_text(s: Seq<u8>) -> bool {
    forall|i: int| 0 <= i < s.len() ==> visible_ascii(#[trigger] s[i])
}

/// `needle` stands in `hay` at offset `at`.
pub open spec fn occurs_at(hay: Seq<u8>, needle: Seq<u8>, at: int) -> bool {
    &&& 0 <= at
    &&& at + needle.len() <= hay.len()
    &&& forall|k: int| 0 <= k < needle.len() ==> #[trigger] hay[at + k] == needle[k]
}

/// `needle` stands somewhere in `hay`, byte for byte.
pub open spec fn contains(hay: Seq<u8>, needle: Seq<u8>) -> bool {
    exists|at: int| occurs_at(hay, needle, at)
}

/// The lower-case form of an ASCII capital; any other byte is itself.
pub open spec fn lowered(b: u8) -> u8 {
    if 65 <= b && b <= 90 {
        (b + 32) as u8
    } else {
        b
    }
}

/// `a` and `b` differ at most in the case of ASCII letters.
pub open spec fn same_ignoring_case(a: Seq<u8>, b: Seq<u8>) -> bool {
    &&& a.len() == b.len()
    &&& forall|i: int| 0 <= i < a.len() ==> lowered(#[trigger] a[i]) == lowered(b[i])
}

/// `word` stands in `s` at offset `at`, the case of ASCII letters aside.
pub open spec fn stands_at(s: Seq<u8>, word: Seq<u8>, at: int) -> bool {
    &&& 0 <= at
    &&& at + word.len() <= s.len()
    &&& forall|k: int| 0 <= k < word.len() ==> lowered(#[trigger] s[at + k]) == lowered(word[k])
}

/// `word` stands somewhere in `s`, the case of ASCII letters aside.
pub open spec fn mentions(s: Seq<u8>, word: Seq<u8>) -> bool {
    exists|at: int| stands_at(s, word, at)
}

/// The bytes of a string of ASCII characters.
pub open spec fn ascii(s: Seq<char>) -> Seq<u8> {
    Seq::new(s.len(), |i: int| s[i] as u8)
}

/// The bytes of a string; for an ASCII string, one byte for each character.
pub fn bytes_of(word: &'static str) -> (r: &'static [u8])
    ensures
        r@ == word.spec_bytes(),
        is_ascii(word) ==> r@ == ascii(word@),
{
    proof {
        is_ascii_spec_bytes(word);
    }
    word.as_bytes()
}

/// Tells whether `b` is a tab or a printable ASCII character.
pub fn byte_is_visible(b: u8) -> (r: bool)
    ensures
        r == visible_ascii(b),
{
    b == 9 || (32 <= b && b < 127)
}

/// Tells whether `bytes` reads as text.
pub fn reads_as_text(bytes: &[u8]) -> (r: bool)
    ensures
        r == is_text(bytes@),
{
    let mut i: usize = 0;
    while i < bytes.len()
        invariant
            i <= bytes.len(),
            forall|j: int| 0 <= j < i ==> visible_ascii(#[trigger] bytes@[j]),
        decreases bytes.len() - i,
    {
        if !byte_is_visible(bytes[i]) {
            return false;
        }
        i += 1;
    }
    true
}

/// Tells whether `needle` stands in `hay` at offset `at`.
pub fn matches_at(hay: &[u8], needle: &[u8], at: usize) -> (r: bool)
    ensures
        r == occurs_at(hay@, needle@, at as int),
{
    if needle.len() > hay.len() || at > hay.len() - needle.len() {
        return false;
    }
    let mut k: usize = 0;
    while k < needle.len()
        invariant
            k <= needle.len(),
            at + needle.len() <= hay.len(),
            forall|j: int| 0 <= j < k ==> #[trigger] hay@[at + j] == needle@[j],
        decreases needle.len() - k,
    {
        if hay[at + k] != needle[k] {
            return false;
        }
        k += 1;
    }
    true
}

/// Finds the first offset at which `needle` stands in `hay`.
pub fn find(hay: &[u8], needle: &[u8]) -> (r: Option<usize>)
    ensures
        match r {
            Some(at) => occurs_at(hay@, needle@, at as int) && forall|j: int|
                0 <= j < at ==> !occurs_at(hay@, needle@, j),
            None => !contains(hay@, needle@),
        },
{
    if needle.len() > hay.len() {
        return None;
    }
    let last: usize = hay.len() - needle.len();
    let mut at: usize = 0;
    while at <= last
        invariant
            last == hay.len() - needle.len(),
            at <= last + 1,
            forall|j: int| 0 <= j < at ==> !occurs_at(hay@, needle@, j),
        decreases last + 1 - at,
    {
        if matches_at(hay, needle, at) {
            return Some(at);
        }
        at += 1;
    }
    None
}

/// Tells whether `needle` stands somewhere in `hay`.
pub fn has_substring(hay: &[u8], needle: &[u8]) -> (r: bool)
    ensures
        r == contains(hay@, needle@),
{
    find(hay, needle).is_some()
}

/// Lowers an ASCII capital and leaves any other byte alone.
pub fn lower(b: u8) -> (r: u8)
    ensures
        r == lowered(b),
{
    if 65 <= b && b <= 90 {
        b + 32
    } else {
        b
    }
}

/// Tells whether `a` and `b` are equal up to the case of ASCII letters.
pub fn eq_ignoring_case(a: &[u8], b: &[u8]) -> (r: bool)
    ensures
        r == same_ignoring_case(a@, b@),
{
    if a.len() != b.len() {
        return false;
    }
    let mut i: usize = 0;
    while i < a.len()
        invariant
            i <= a.len(),
            a.len() == b.len(),
            forall|j: int| 0 <= j < i ==> lowered(#[trigger] a@[j]) == lowered(b@[j]),
        decreases a.len() - i,
    {
        if lower(a[i]) != lower(b[i]) {
            return false;
        }
        i += 1;
    }
    true
}

/// Tells whether `word` stands in `s` at offset `at`, letter case aside.
pub fn stands_here(s: &[u8], word: &[u8], at: usize) -> (r: bool)
    ensures
        r == stands_at(s@, word@, at as int),
{
    if word.len() > s.len() || at > s.len() - word.len() {
        return false;
    }
    let mut k: usize = 0;
    while k < word.len()
        invariant
            k <= word.len(),
            at + word.len() <= s.len(),
            forall|j: int| 0 <= j < k ==> lowered(#[trigger] s@[at + j]) == lowered(word@[j]),
        decreases word.len() - k,
    {
        if lower(s[at + k]) != lower(word[k]) {
            return false;
        }
        k += 1;
    }
    true
}

/// Tells whether `word` stands somewhere in `s`, letter case aside.
pub fn mentions_word(s: &[u8], word: &[u8]) -> (r: bool)
    ensures
        r == mentions(s@, word@),
{
    if word.len() > s.len() {
        return false;
    }
    let last: usize = s.len() - word.len();
    let mut at: usize = 0;
    while at <= last
        invariant
            last == s.len() - word.len(),
            at <= last + 1,
            forall|j: int| 0 <= j < at ==> !stands_at(s@, word@, j),
        decreases last + 1 - at,
    {
        if stands_here(s, word, at) {
            return true;
        }
        at += 1;
    }
    false
}

} // verus!
