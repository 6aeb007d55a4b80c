//! The interceptor itself: from the downstream response, with its body
//! already drained or the drain already failed, to what is sent to the client.
//!
//! The steps run once, in order, and never go back: the drained body is
//! taken or the read failure reported; the content type is classified; an
//! HTML body is minified, any other body is kept; the response is rebuilt
//! around the body with the status and headers it came with.
//!
//! The minifier is called here only on a document about which there is no
//! doubt. For any other HTML body the step is deferred: the caller gets the
//! body and the switches, makes the call under its own shield, and hands what
//! came back to [`conclude`].

use crate::guard::{doubt, empty_is_taken, Doubt};
use crate::header::{
    declares_html, fields, html_marker, is_html, json_does_not_say_html, json_type,
    missing_content_type_is_not_html, names_content_type, sole_content_type,
    unmarked_content_type_is_not_html, Field, Header,
};
use crate::response::{Failure, FailureKind, Fault, Message, Response};
use crate::text::contains;
use crate::transform::{minified, minify, MinifyConfig};
use vstd::prelude::*;
use vstd::string::*;

verus! {

/// An HTML response whose body is still to be minified, by a caller that can
/// shield the call: the minifier is to be run on `body` with the switches
/// `cfg`. `doubt` says what kept the library from making the call.
#[derive(Clone, Debug, PartialEq, Eq)]
pub struct Pending {
    pub status: u16,
    pub headers: Vec<Header>,
    pub body: Vec<u8>,
    pub cfg: MinifyConfig,
    pub doubt: Doubt,
}

/// A pending response as mathematical data.
pub struct Open {
    pub status: u16,
    pub headers: Seq<Field>,
    pub body: Seq<u8>,
    pub cfg: MinifyConfig,
    pub doubt: Doubt,
}

impl View for Pending {
    type V = Open;

    open spec fn view(&self) -> Open {
        Open {
            status: self.status,
            headers: fields(self.headers@),
            body: self.body@,
            cfg: self.cfg,
            doubt: self.doubt,
        }
    }
}

/// How far the interceptor got by itself.
#[derive(Debug, PartialEq, Eq)]
pub enum Step {
    /// The response to send, or the failure to report.
    Settled(Result<Response, Failure>),
    /// The minifier is still to be run, by the caller.
    Deferred(Pending),
}

/// A step as mathematical data.
pub enum Stage {
    Settled(Result<Message, Fault>),
    Deferred(Open),
}

impl View for Step {
    type V = Stage;

    open spec fn view(&self) -> Stage {
        match *self {
            Step::Settled(r) => Stage::Settled(outcome(r)),
            Step::Deferred(pending) => Stage::Deferred(pending@),
        }
    }
}

/// The diagnostic of a read failure whose cause reads `why`.
pub open spec fn read_failure_text(why: Seq<char>) -> Seq<char> {
    "failed to read response body: "@ + why
}

/// The diagnostic of a transform failure whose cause reads `why`.
pub open spec fn transform_failure_text(why: Seq<char>) -> Seq<char> {
    "failed to minify response body: "@ + why
}

/// What a result of the interceptor stands for.
pub open spec fn outcome(r: Result<Response, Failure>) -> Result<Message, Fault> {
    match r {
        Ok(response) => Ok(response@),
        Err(failure) => Err(failure@),
    }
}

/// What a body, or the cause for which there is none, stands for.
pub open spec fn drained(body: Result<Vec<u8>, String>) -> Result<Seq<u8>, Seq<char>> {
    match body {
        Ok(bytes) => Ok(bytes@),
        Err(why) => Err(why@),
    }
}

/// What a transform that was run, if one was, stands for.
pub open spec fn answer(transformed: Option<Result<Vec<u8>, String>>) -> Option<
    Result<Seq<u8>, Seq<char>>,
> {
    match transformed {
        None => None,
        Some(r) => Some(drained(r)),
    }
}

/// What is sent once the transform has answered. With no transform asked
/// for, the body goes out as it came; a transform that returned gives the
/// body; a transform that failed is a failure that names the cause.
pub open spec fn responded(
    status: u16,
    headers: Seq<Field>,
    body: Seq<u8>,
    transformed: Option<Result<Seq<u8>, Seq<char>>>,
) -> Result<Message, Fault> {
    match transformed {
        None => Ok(Message { status, headers, body }),
        Some(Ok(bytes)) => Ok(Message { status, headers, body: bytes }),
        Some(Err(why)) => Err(
            Fault { kind: FailureKind::Transform, message: transform_failure_text(why) },
        ),
    }
}

/// What the interceptor makes of a downstream response by itself: the report
/// of a failed drain; the response as it came, where the headers do not
/// declare HTML; the response with its body minified, where they do and
/// there is no doubt about the body; and where there is one, the response
/// left open for the caller to have the body minified.
pub open spec fn intercepted(
    status: u16,
    headers: Seq<Field>,
    body: Result<Seq<u8>, Seq<char>>,
    cfg: MinifyConfig,
) -> Stage {
    match body {
        Err(why) => Stage::Settled(
            Err(Fault { kind: FailureKind::BodyRead, message: read_failure_text(why) }),
        ),
        Ok(bytes) => if !is_html(headers) {
            Stage::Settled(Ok(Message { status, headers, body: bytes }))
        } else {
            match doubt(bytes, cfg) {
                None => Stage::Settled(Ok(Message { status, headers, body: minified(bytes, cfg) })),
                Some(why) => Stage::Deferred(Open { status, headers, body: bytes, cfg, doubt: why }),
            }
        },
    }
}

/// What becomes of an open response once the caller's call of the minifier
/// has returned `Ok` with the minified body, or failed for the cause given.
pub open spec fn concluded(open: Open, shielded: Result<Seq<u8>, Seq<char>>) -> Result<Message, Fault> {
    responded(open.status, open.headers, open.body, Some(shielded))
}

/// What is sent in the end: what the interceptor settled by itself, or what
/// the caller's call of the minifier made of the open response.
pub open spec fn finished(stage: Stage, shielded: Result<Seq<u8>, Seq<char>>) -> Result<Message, Fault> {
    match stage {
        Stage::Settled(r) => r,
        Stage::Deferred(open) => concluded(open, shielded),
    }
}

/// Passthrough invariance. Where no `Content-Type` value holds the marker
/// `text/html`, a response whose body was read goes out with the very bytes,
/// status and headers it came with, under any configuration.
pub proof fn passthrough_invariance(status: u16, headers: Seq<Field>, body: Seq<u8>, cfg: MinifyConfig)
    requires
        forall|i: int|
            0 <= i < headers.len() && names_content_type((#[trigger] headers[i]).name) ==> !contains(
                headers[i].value,
                html_marker(),
            ),
    ensures
        intercepted(status, headers, Ok(body), cfg) == Stage::Settled(
            Ok(Message { status, headers, body }),
        ),
{
    unmarked_content_type_is_not_html(headers);
}

/// A response that does not declare HTML, for whichever reason, goes out as
/// it came.
pub proof fn only_html_is_rewritten(status: u16, headers: Seq<Field>, body: Seq<u8>, cfg: MinifyConfig)
    requires
        !is_html(headers),
    ensures
        intercepted(status, headers, Ok(body), cfg) == Stage::Settled(
            Ok(Message { status, headers, body }),
        ),
{
}

/// Fail-safe classification. A response without a `Content-Type` field is
/// never transformed.
pub proof fn missing_content_type_is_never_transformed(
    status: u16,
    headers: Seq<Field>,
    body: Seq<u8>,
    cfg: MinifyConfig,
)
    requires
        forall|i: int| 0 <= i < headers.len() ==> !names_content_type((#[trigger] headers[i]).name),
    ensures
        intercepted(status, headers, Ok(body), cfg) == Stage::Settled(
            Ok(Message { status, headers, body }),
        ),
{
    missing_content_type_is_not_html(headers);
}

/// A response whose only `Content-Type` is `application/json` is never
/// transformed.
pub proof fn json_is_never_transformed(
    status: u16,
    headers: Seq<Field>,
    at: int,
    body: Seq<u8>,
    cfg: MinifyConfig,
)
    requires
        sole_content_type(headers, at),
        headers[at].value == json_type(),
    ensures
        intercepted(status, headers, Ok(body), cfg) == Stage::Settled(
            Ok(Message { status, headers, body }),
        ),
{
    json_does_not_say_html();
    unmarked_content_type_is_not_html(headers);
}

/// Every HTML body goes out minified, whoever makes the call. Where the
/// headers declare HTML and the caller's call of the minifier, if it comes to
/// one, returns what the minifier returns for the body and the switches, the
/// response carries the status and headers it came with and the minified
/// body.
pub proof fn html_goes_out_minified(status: u16, headers: Seq<Field>, body: Seq<u8>, cfg: MinifyConfig)
    requires
        is_html(headers),
    ensures
        finished(intercepted(status, headers, Ok(body), cfg), Ok(minified(body, cfg))) == Ok::<
            Message,
            Fault,
        >(Message { status, headers, body: minified(body, cfg) }),
        intercepted(status, headers, Ok(body), cfg) matches Stage::Deferred(open) ==> open.body == body
            && open.cfg == cfg,
{
}

/// A transform fails only in the caller's hands: the interceptor by itself
/// never reports one, and a call that the caller reports as failed is
/// answered with a failure that names the cause.
pub proof fn transform_fails_only_under_the_shield(
    status: u16,
    headers: Seq<Field>,
    body: Seq<u8>,
    cfg: MinifyConfig,
    why: Seq<char>,
)
    ensures
        !(intercepted(status, headers, Ok(body), cfg) matches Stage::Settled(Err(_))),
        intercepted(status, headers, Ok(body), cfg) is Deferred ==> finished(
            intercepted(status, headers, Ok(body), cfg),
            Err(why),
        ) == Err::<Message, Fault>(
            Fault { kind: FailureKind::Transform, message: transform_failure_text(why) },
        ),
{
}

/// Whatever is sent on carries the status and the headers that came from
/// downstream, and a body that is the one that came or the one the minifier
/// returned: no response is a mixture.
pub proof fn response_is_whole(
    status: u16,
    headers: Seq<Field>,
    body: Result<Seq<u8>, Seq<char>>,
    cfg: MinifyConfig,
    shielded: Result<Seq<u8>, Seq<char>>,
)
    ensures
        finished(intercepted(status, headers, body, cfg), shielded) matches Ok(message) ==> {
            &&& body is Ok
            &&& message.status == status
            &&& message.headers == headers
            &&& (message.body == body->Ok_0 || message.body == minified(body->Ok_0, cfg) || shielded
                == Ok::<Seq<u8>, Seq<char>>(message.body))
        },
{
}

/// A failed drain is always reported, whatever the headers say, and the
/// report names the cause.
pub proof fn read_failure_is_reported(status: u16, headers: Seq<Field>, why: Seq<char>, cfg: MinifyConfig)
    ensures
        intercepted(status, headers, Err(why), cfg) == Stage::Settled(
            Err(Fault { kind: FailureKind::BodyRead, message: read_failure_text(why) }),
        ),
        read_failure_text(why).len() > 0,
{
    reveal_strlit("failed to read response body: ");
}

/// Settles the outcome of draining the downstream body: the bytes as they
/// were collected, or the diagnostic that names the cause.
pub fn response_buffer(collected: Result<Vec<u8>, String>) -> (r: Result<Vec<u8>, String>)
    ensures
        match collected {
            Ok(bytes) => r == Ok::<Vec<u8>, String>(bytes),
            Err(why) => r matches Err(message) && message@ == read_failure_text(why@)
                && message@.len() > 0,
        },
{
    match collected {
        Ok(bytes) => Ok(bytes),
        Err(why) => {
            let message = String::from_str("failed to read response body: ").concat(why.as_str());
            proof {
                reveal_strlit("failed to read response body: ");
            }
            Err(message)
        },
    }
}

/// Reports a transform that gave no result, naming the cause.
pub fn transform_failure(why: &str) -> (failure: Failure)
    ensures
        failure@ == (Fault { kind: FailureKind::Transform, message: transform_failure_text(why@) }),
        failure.message@.len() > 0,
{
    let message = String::from_str("failed to minify response body: ").concat(why);
    proof {
        reveal_strlit("failed to minify response body: ");
    }
    Failure { kind: FailureKind::Transform, message }
}

/// Rebuilds the response around the settled body: the status and headers it
/// came with, and the bytes as they came or the rewritten ones.
/// `transformed` is `None` where no transform was asked for, and else the
/// minified body or the cause for which the minifier gave none.
pub fn respond(
    status: u16,
    headers: Vec<Header>,
    body: Vec<u8>,
    transformed: Option<Result<Vec<u8>, String>>,
) -> (r: Result<Response, Failure>)
    ensures
        outcome(r) == responded(status, fields(headers@), body@, answer(transformed)),
{
    match transformed {
        None => Ok(Response { status, headers, body }),
        Some(Ok(bytes)) => Ok(Response { status, headers, body: bytes }),
        Some(Err(why)) => Err(transform_failure(why.as_str())),
    }
}

/// Finishes a deferred step with what the caller's call of the minifier gave:
/// `Ok` with the minified body, or the cause for which the call failed. The
/// response is the pending one with the minified body, or the failure that
/// names the cause.
pub fn conclude(pending: Pending, shielded: Result<Vec<u8>, String>) -> (r: Result<Response, Failure>)
    ensures
        outcome(r) == concluded(pending@, drained(shielded)),
{
    respond(pending.status, pending.headers, pending.body, Some(shielded))
}

/// Runs the interceptor on a downstream response with the switches `cfg`.
///
/// `body` is the drained body, or the cause of the failed drain in words.
/// A failed drain is reported as a failure. Otherwise the status and the
/// headers go out unchanged, with the body as it came if the headers do not
/// declare HTML, and with the minified body if they do. Where there is a
/// doubt whether the minifier comes back from the body, the call is not made
/// here: the step is deferred, and the caller finishes it with [`conclude`].
pub fn process(
    status: u16,
    headers: Vec<Header>,
    body: Result<Vec<u8>, String>,
    cfg: &MinifyConfig,
) -> (r: Step)
    ensures
        r@ == intercepted(status, fields(headers@), drained(body), *cfg),
        (body matches Ok(bytes) && bytes@.len() == 0) ==> (r matches Step::Settled(Ok(response))
            && response.body@.len() == 0),
{
    let bytes = match response_buffer(body) {
        Ok(bytes) => bytes,
        Err(message) => {
            return Step::Settled(Err(Failure { kind: FailureKind::BodyRead, message }));
        },
    };
    if !declares_html(&headers) {
        return Step::Settled(respond(status, headers, bytes, None));
    }
    proof {
        if bytes@.len() == 0 {
            assert(bytes@ =~= Seq::<u8>::empty());
            empty_is_taken(*cfg);
        }
    }
    match minify(bytes.as_slice(), cfg) {
        Ok(rewritten) => Step::Settled(respond(status, headers, bytes, Some(Ok(rewritten)))),
        Err(why) => Step::Deferred(Pending { status, headers, body: bytes, cfg: *cfg, doubt: why }),
    }
}

/// Runs the interceptor with the fixed configuration.
pub fn html_minifier(status: u16, headers: Vec<Header>, body: Result<Vec<u8>, String>) -> (r: Step)
    ensures
        r@ == intercepted(status, fields(headers@), drained(body), MinifyConfig::preset()),
        (body matches Ok(bytes) && bytes@.len() == 0) ==> (r matches Step::Settled(Ok(response))
            && response.body@.len() == 0),
{
    let cfg = MinifyConfig::fixed();
    process(status, headers, body, &cfg)
}

} // verus!
