//! The test a document has to pass before this library calls the minifier on
//! it by itself.
//!
//! The minifier does not come back from every document. A deeply nested one
//! exhausts the stack; one of its assertions stops on an end tag that runs on
//! past the name it closes; it panics on a style sheet that is not UTF-8; and
//! the CSS and JavaScript minifiers behind it recurse on the text of style
//! sheets and scripts. The scans of this module recognise a document that is
//! clear of all of these. For any other document the library has a doubt,
//! and leaves the call to a caller that can shield it.

use crate::text::{ascii, bytes_of, mentions, mentions_word, stands_at, stands_here};
use crate::transform::MinifyConfig;
use vstd::prelude::*;
use vstd::string::*;

verus! {

/// The largest number of element openings a document may hold. The minifier
/// nests one level for an opening at most, and a level costs it some
/// kilobytes of stack in an unoptimised build.
pub const MAX_ELEMENTS: usize = 128;

/// Why the library does not call the minifier on a document by itself.
#[derive(Clone, Copy, Debug, PartialEq, Eq, Structural)]
pub enum Doubt {
    /// JavaScript is to be minified and the document holds `<script`: the
    /// JavaScript minifier would be reached, and it nests as deep as the
    /// script does.
    Script,
    /// CSS is to be minified and the document holds `style`: the CSS
    /// minifier would be reached, which nests with the style sheet, behind a
    /// check that panics on text that is not UTF-8.
    Style,
    /// An end tag of `script`, `style`, `textarea` or `title` runs on: an
    /// assertion of the parser fails on it in a build that keeps assertions.
    EndTag,
    /// The document opens more than `MAX_ELEMENTS` elements: they may be
    /// nested deeper than the stack holds.
    Elements,
}

/// A byte that a tag name may hold: an ASCII letter or digit, `:` or `-`.
pub open spec fn name_char(b: u8) -> bool {
    ||| 48 <= b <= 57
    ||| 65 <= b <= 90
    ||| 97 <= b <= 122
    ||| b == 58
    ||| b == 45
}

/// An element may open at `at`: a `<` with a name character behind it.
pub open spec fn opens_at(s: Seq<u8>, at: int) -> bool {
    0 <= at && at + 1 < s.len() && s[at] == 60 && name_char(s[at + 1])
}

/// The number of offsets below `upto` at which an element may open.
pub open spec fn openings(s: Seq<u8>, upto: int) -> nat
    decreases upto,
{
    if upto <= 0 {
        0
    } else {
        openings(s, upto - 1) + if opens_at(s, upto - 1) {
            1nat
        } else {
            0nat
        }
    }
}

/// `prefix` stands at `at`, letter case aside, with a name character behind it.
pub open spec fn runs_on_at(s: Seq<u8>, prefix: Seq<u8>, at: int) -> bool {
    stands_at(s, prefix, at) && at + prefix.len() < s.len() && name_char(s[at + prefix.len()])
}

/// Somewhere `prefix` stands with a name character behind it.
pub open spec fn runs_on(s: Seq<u8>, prefix: Seq<u8>) -> bool {
    exists|at: int| runs_on_at(s, prefix, at)
}

/// An end tag of `script`, `style`, `textarea` or `title` goes on with a name
/// character, as in `</scripts>`.
pub open spec fn end_tag_runs_on(s: Seq<u8>) -> bool {
    ||| runs_on(s, ascii("</script"@))
    ||| runs_on(s, ascii("</style"@))
    ||| runs_on(s, ascii("</textarea"@))
    ||| runs_on(s, ascii("</title"@))
}

/// The doubt the library has about the document `s` under the switches
/// `cfg`, or `None` where it vouches that the minifier comes back.
pub open spec fn doubt(s: Seq<u8>, cfg: MinifyConfig) -> Option<Doubt> {
    if cfg.minify_js && mentions(s, ascii("<script"@)) {
        Some(Doubt::Script)
    } else if cfg.minify_css && mentions(s, ascii("style"@)) {
        Some(Doubt::Style)
    } else if end_tag_runs_on(s) {
        Some(Doubt::EndTag)
    } else if openings(s, s.len() as int) > MAX_ELEMENTS {
        Some(Doubt::Elements)
    } else {
        None
    }
}

/// There is no doubt about the empty document, under any switches.
pub proof fn empty_is_taken(cfg: MinifyConfig)
    ensures
        doubt(Seq::<u8>::empty(), cfg) is None,
{
    reveal_strlit("<script");
    reveal_strlit("style");
    reveal_strlit("</script");
    reveal_strlit("</style");
    reveal_strlit("</textarea");
    reveal_strlit("</title");
}

/// Tells whether `b` may stand in a tag name.
pub fn is_name_char(b: u8) -> (r: bool)
    ensures
        r == name_char(b),
{
    (48 <= b && b <= 57) || (65 <= b && b <= 90) || (97 <= b && b <= 122) || b == 58 || b == 45
}

/// Counts the offsets at which an element may open.
pub fn count_openings(s: &[u8]) -> (n: usize)
    ensures
        n == openings(s@, s.len() as int),
{
    let mut n: usize = 0;
    let mut at: usize = 0;
    while at < s.len()
        invariant
            at <= s.len(),
            n == openings(s@, at as int),
            n <= at,
        decreases s.len() - at,
    {
        if s[at] == 60 && at + 1 < s.len() && is_name_char(s[at + 1]) {
            n += 1;
        }
        at += 1;
    }
    n
}

/// Tells whether `prefix` stands somewhere with a name character behind it.
pub fn finds_run_on(s: &[u8], prefix: &[u8]) -> (r: bool)
    ensures
        r == runs_on(s@, prefix@),
{
    if prefix.len() >= s.len() {
        return false;
    }
    let last: usize = s.len() - prefix.len();
    let mut at: usize = 0;
    while at < last
        invariant
            last == s.len() - prefix.len(),
            at <= last,
            forall|j: int| 0 <= j < at ==> !runs_on_at(s@, prefix@, j),
        decreases last - at,
    {
        if stands_here(s, prefix, at) && is_name_char(s[at + prefix.len()]) {
            assert(runs_on_at(s@, prefix@, at as int));
            return true;
        }
        at += 1;
    }
    false
}

/// Tells whether an end tag of `script`, `style`, `textarea` or `title` runs on.
pub fn finds_running_end_tag(s: &[u8]) -> (r: bool)
    ensures
        r == end_tag_runs_on(s@),
{
    proof {
        reveal_strlit("</script");
        reveal_strlit("</style");
        reveal_strlit("</textarea");
        reveal_strlit("</title");
    }
    finds_run_on(s, bytes_of("</script")) || finds_run_on(s, bytes_of("</style")) || finds_run_on(
        s,
        bytes_of("</textarea"),
    ) || finds_run_on(s, bytes_of("</title"))
}

/// Examines the document: the doubt about it, or `None` where there is none.
pub fn examine(s: &[u8], cfg: &MinifyConfig) -> (r: Option<Doubt>)
    ensures
        r == doubt(s@, *cfg),
{
    proof {
        reveal_strlit("<script");
        reveal_strlit("style");
    }
    if cfg.minify_js && mentions_word(s, bytes_of("<script")) {
        Some(Doubt::Script)
    } else if cfg.minify_css && mentions_word(s, bytes_of("style")) {
        Some(Doubt::Style)
    } else if finds_running_end_tag(s) {
        Some(Doubt::EndTag)
    } else if count_openings(s) > MAX_ELEMENTS {
        Some(Doubt::Elements)
    } else {
        None
    }
}

} // verus!
