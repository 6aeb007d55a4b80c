//! Response post-processing for an HTTP server: a buffered response whose
//! `Content-Type` says HTML has its body rewritten by the `minify-html`
//! minifier; every other response passes through untouched.
//!
//! The crate works on plain values. The surrounding server drains the
//! downstream body and hands over the status, the header list and the outcome
//! of the drain; [`html_minifier`] answers with the response to send, with
//! the failure to report, or with the call of the minifier that is left for
//! the server to make.
//!
//! The library calls the minifier by itself only on a document from which
//! the minifier is known to come back. There is a doubt about an HTML body
//! where
//! - it holds `<script`, in any letter case, and JavaScript is to be minified;
//! - it holds `style`, in any letter case, and CSS is to be minified;
//! - an end tag of `script`, `style`, `textarea` or `title` runs on into a
//!   longer name, as in `</titles>`;
//! - it holds more than 128 places at which an element may open.
//!
//! Such a body is not refused. The step is deferred: [`html_minifier`] hands
//! back the body and the switches, the caller runs the minifier on them under
//! a shield of its own, and [`conclude`] makes the response of what came
//! back, or the failure with status 500 if the call failed. Either way an
//! HTML body goes out as the minifier returned it. The encoding of the body
//! plays no part in this.
//!
//! The status and the headers are never changed, so a `Content-Length` that
//! came from downstream still states the length of the body before
//! minification; the server that sends the response has to set it anew.

pub mod guard;
pub mod header;
pub mod interceptor;
pub mod response;
pub mod text;
pub mod transform;

pub use guard::Doubt;
pub use header::Header;
pub use interceptor::{conclude, html_minifier, process, Pending, Step};
pub use response::{Failure, FailureKind, Response};
pub use transform::MinifyConfig;
