//! Response headers as an ordered list of name and value, and the one signal
//! read from them: whether the response declares itself to be HTML.

use crate::text::{
    ascii, bytes_of, contains, eq_ignoring_case, has_substring, is_text, occurs_at, reads_as_text,
    same_ignoring_case,
};
use vstd::prelude::*;
use vstd::string::*;

verus! {

/// One header line. The name is compared without regard to letter case; the
/// value is kept as the bytes that were sent.
#[derive(Clone, Debug, PartialEq, Eq)]
pub struct Header {
    pub name: Vec<u8>,
    pub value: Vec<u8>,
}

/// A header line as mathematical data.
pub struct Field {
    pub name: Seq<u8>,
    pub value: Seq<u8>,
}

impl View for Header {
    type V = Field;

    open spec fn view(&self) -> Field {
        Field { name: self.name@, value: self.value@ }
    }
}

/// The fields that a header list stands for, in order.
pub open spec fn fields(headers: Seq<Header>) -> Seq<Field> {
    Seq::new(headers.len(), |i: int| headers[i]@)
}

/// The bytes of `content-type`.
pub open spec fn content_type_name() -> Seq<u8> {
    ascii("content-type"@)
}

/// The bytes of `text/html`.
pub open spec fn html_marker() -> Seq<u8> {
    ascii("text/html"@)
}

/// `name` is `Content-Type` in some letter case.
pub open spec fn names_content_type(name: Seq<u8>) -> bool {
    same_ignoring_case(name, content_type_name())
}

/// The field at `at` is a `Content-Type` field and no other field is one.
pub open spec fn sole_content_type(list: Seq<Field>, at: int) -> bool {
    &&& 0 <= at < list.len()
    &&& names_content_type(list[at].name)
    &&& forall|j: int| 0 <= j < list.len() && names_content_type((#[trigger] list[j]).name) ==> j == at
}

/// `value` reads as text and holds the marker `text/html`, in that exact case.
pub open spec fn says_html(value: Seq<u8>) -> bool {
    is_text(value) && contains(value, html_marker())
}

/// The list holds exactly one `Content-Type` field, and its value says HTML.
pub open spec fn is_html(list: Seq<Field>) -> bool {
    exists|at: int| sole_content_type(list, at) && says_html((#[trigger] list[at]).value)
}

/// A list without any `Content-Type` field does not declare HTML.
pub proof fn missing_content_type_is_not_html(list: Seq<Field>)
    requires
        forall|i: int| 0 <= i < list.len() ==> !names_content_type((#[trigger] list[i]).name),
    ensures
        !is_html(list),
{
}

/// A list with two `Content-Type` fields does not declare HTML, whatever
/// their values are.
pub proof fn repeated_content_type_is_not_html(list: Seq<Field>, i: int, j: int)
    requires
        0 <= i < j < list.len(),
        names_content_type(list[i].name),
        names_content_type(list[j].name),
    ensures
        !is_html(list),
{
}

/// A list in which no `Content-Type` value reads as text does not declare
/// HTML, even where the marker stands among the bytes.
pub proof fn unreadable_content_type_is_not_html(list: Seq<Field>)
    requires
        forall|i: int|
            0 <= i < list.len() && names_content_type((#[trigger] list[i]).name) ==> !is_text(
                list[i].value,
            ),
    ensures
        !is_html(list),
{
}

/// A list in which no `Content-Type` value holds the marker `text/html` does
/// not declare HTML.
pub proof fn unmarked_content_type_is_not_html(list: Seq<Field>)
    requires
        forall|i: int|
            0 <= i < list.len() && names_content_type((#[trigger] list[i]).name) ==> !contains(
                list[i].value,
                html_marker(),
            ),
    ensures
        !is_html(list),
{
}

/// The bytes of `application/json`.
pub open spec fn json_type() -> Seq<u8> {
    ascii("application/json"@)
}

/// The content type `application/json` does not hold the marker, and so does
/// not say HTML.
pub proof fn json_does_not_say_html()
    ensures
        !contains(json_type(), html_marker()),
        !says_html(json_type()),
{
    reveal_strlit("application/json");
    reveal_strlit("text/html");
    let value = json_type();
    let marker = html_marker();
    assert forall|at: int| !occurs_at(value, marker, at) by {
        if occurs_at(value, marker, at) {
            assert(value[at + 1] == marker[1]);
        }
    }
}

/// The name under which the content type is looked up.
pub fn content_type_key() -> (r: &'static [u8])
    ensures
        r@ == content_type_name(),
{
    proof {
        reveal_strlit("content-type");
    }
    bytes_of("content-type")
}

/// The marker whose presence in the content type means HTML.
pub fn html_marker_bytes() -> (r: &'static [u8])
    ensures
        r@ == html_marker(),
{
    proof {
        reveal_strlit("text/html");
    }
    bytes_of("text/html")
}

/// Tells whether `name` is `Content-Type` in some letter case.
pub fn is_content_type(name: &[u8]) -> (r: bool)
    ensures
        r == names_content_type(name@),
{
    eq_ignoring_case(name, content_type_key())
}

/// Tells whether a content type value says HTML.
pub fn value_says_html(value: &[u8]) -> (r: bool)
    ensures
        r == says_html(value@),
{
    reads_as_text(value) && has_substring(value, html_marker_bytes())
}

/// Finds the position of the `Content-Type` field, provided the list holds
/// exactly one. A list with none, or with several, has no position to give.
pub fn content_type(headers: &Vec<Header>) -> (r: Option<usize>)
    ensures
        match r {
            Some(at) => sole_content_type(fields(headers@), at as int),
            None => forall|at: int| !sole_content_type(fields(headers@), at),
        },
{
    let ghost list = fields(headers@);
    let mut found: Option<usize> = None;
    let mut i: usize = 0;
    while i < headers.len()
        invariant
            i <= headers.len(),
            list == fields(headers@),
            match found {
                Some(at) => at < i && names_content_type(list[at as int].name) && forall|j: int|
                    0 <= j < i && names_content_type((#[trigger] list[j]).name) ==> j == at,
                None => forall|j: int| 0 <= j < i ==> !names_content_type((#[trigger] list[j]).name),
            },
        decreases headers.len() - i,
    {
        if is_content_type(headers[i].name.as_slice()) {
            match found {
                Some(at) => {
                    assert forall|k: int| !sole_content_type(list, k) by {
                        if sole_content_type(list, k) {
                            assert(names_content_type(list[i as int].name));
                        }
                    }
                    return None;
                },
                None => {
                    found = Some(i);
                },
            }
        }
        i += 1;
    }
    found
}

/// Tells whether the response declares itself to be HTML. A missing
/// `Content-Type`, a repeated one, a value that does not read as text and a
/// value without the marker all answer no.
pub fn declares_html(headers: &Vec<Header>) -> (r: bool)
    ensures
        r == is_html(fields(headers@)),
{
    match content_type(headers) {
        Some(at) => value_says_html(headers[at].value.as_slice()),
        None => false,
    }
}

} // verus!
