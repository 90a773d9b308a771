//! What is written back to a client, and with which content type.
use vstd::prelude::*;
use crate::error::OcrError;

verus! {

/// Content type of the recognized text, and of every failed recognition.
pub const PLAIN_TEXT: &'static str = "text/plain";

/// Content type of the upload page.
pub const HTML_PAGE: &'static str = "text/html; charset=UTF-8";

/// A response body, before it is written.
pub enum Reply {
    /// The static upload page.
    UploadPage,
    /// Plain text: what was recognized, or nothing when recognition failed.
    Text(String),
}

/// The content type a reply is sent with.
pub open spec fn content_type_of(reply: &Reply) -> Seq<char> {
    match reply {
        Reply::UploadPage => HTML_PAGE@,
        Reply::Text(_) => PLAIN_TEXT@,
    }
}

/// The text a recognition outcome is answered with: the recognized text, or
/// an empty body for every kind of failure alike.
pub open spec fn outcome_text(outcome: Result<String, OcrError>) -> Seq<char> {
    match outcome {
        Ok(t) => t@,
        Err(_) => seq![],
    }
}

impl Reply {
    /// The one content type header value this reply is sent with.
    pub fn content_type(&self) -> (r: &'static str)
        ensures
            r@ == content_type_of(self),
    {
        match self {
            Reply::UploadPage => HTML_PAGE,
            Reply::Text(_) => PLAIN_TEXT,
        }
    }
}

/// The reply to a recognition request: always plain text, empty on failure.
pub fn outcome_reply(outcome: Result<String, OcrError>) -> (r: Reply)
    ensures
        r matches Reply::Text(t) && t@ == outcome_text(outcome),
{
    match outcome {
        Ok(t) => Reply::Text(t),
        Err(_) => Reply::Text(String::new()),
    }
}

} // verus!
