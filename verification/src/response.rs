//! The values that cross the boundary of the interceptor: the response that
//! is sent on, and the failure that is reported instead.

use crate::header::{fields, Field, Header};
use vstd::prelude::*;
use vstd::string::*;
use vstd::utf8::encode_utf8;

verus! {

/// The status of every failure response: `500 Internal Server Error`.
pub const INTERNAL_SERVER_ERROR: u16 = 500;

/// A response with its body held in memory as one piece.
#[derive(Clone, Debug, PartialEq, Eq)]
pub struct Response {
    pub status: u16,
    pub headers: Vec<Header>,
    pub body: Vec<u8>,
}

/// A response as mathematical data.
pub struct Message {
    pub status: u16,
    pub headers: Seq<Field>,
    pub body: Seq<u8>,
}

impl View for Response {
    type V = Message;

    open spec fn view(&self) -> Message {
        Message { status: self.status, headers: fields(self.headers@), body: self.body@ }
    }
}

/// Which step of the interceptor gave up.
#[derive(Clone, Copy, Debug, PartialEq, Eq, Structural)]
pub enum FailureKind {
    /// The downstream body could not be read to its end.
    BodyRead,
    /// The body could not be given to the minifier.
    Transform,
}

/// A failure of the interceptor: the step that gave up and a diagnostic for
/// the client.
#[derive(Clone, Debug, PartialEq, Eq)]
pub struct Failure {
    pub kind: FailureKind,
    pub message: String,
}

/// A failure as mathematical data.
pub struct Fault {
    pub kind: FailureKind,
    pub message: Seq<char>,
}

impl View for Failure {
    type V = Fault;

    open spec fn view(&self) -> Fault {
        Fault { kind: self.kind, message: self.message@ }
    }
}

/// The response that reports `fault`: status 500, no header, and the
/// diagnostic as the body.
pub open spec fn fault_message(fault: Fault) -> Message {
    Message {
        status: INTERNAL_SERVER_ERROR,
        headers: Seq::<Field>::empty(),
        body: encode_utf8(fault.message),
    }
}

impl Failure {
    /// The status a failure is reported with, whatever its kind.
    pub fn status(&self) -> (code: u16)
        ensures
            code == INTERNAL_SERVER_ERROR,
    {
        INTERNAL_SERVER_ERROR
    }

    /// Builds the response that reports this failure. It is made from nothing
    /// but the diagnostic: no header of the downstream response survives.
    pub fn into_response(self) -> (r: Response)
        ensures
            r@ == fault_message(self@),
    {
        let body = self.message.as_str().as_bytes_vec();
        let r = Response { status: INTERNAL_SERVER_ERROR, headers: Vec::new(), body };
        assert(r@.headers =~= Seq::<Field>::empty());
        r
    }
}

} // verus!
