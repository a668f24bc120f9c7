//! The JSON envelope that reports a failure.

use chrono::Local;
use vstd::prelude::*;

verus! {

pub struct ErrorResponse {
    message: String,
    timestamp: String,
}

impl ErrorResponse {
    /// The sentence that the envelope carries.
    pub closed spec fn message_text(&self) -> Seq<char> {
        self.message@
    }

    /// The time that the envelope is stamped with, as text.
    pub closed spec fn timestamp_text(&self) -> Seq<char> {
        self.timestamp@
    }

    /// An envelope for `message`, stamped with the time of the call.
    pub fn new(message: String) -> (response: ErrorResponse)
        ensures
            response.message_text() == message@,
    {
        ErrorResponse { message, timestamp: now_rfc3339() }
    }

    pub fn message(&self) -> (text: &String)
        ensures
            text@ == self.message_text(),
    {
        &self.message
    }

    /// The time at which the envelope was made, as RFC 3339 text.
    pub fn timestamp(&self) -> (text: &String)
        ensures
            text@ == self.timestamp_text(),
    {
        &self.timestamp
    }
}

/// `chrono::Local::now().to_rfc3339()`: the current local time as RFC 3339
/// text. Nothing is claimed of it.
#[verifier::external_body]
fn now_rfc3339() -> String {
    Local::now().to_rfc3339()
}

/// The sentence that stands in for a failure that carries no report of its
/// own: the status line of the response.
pub open spec fn fallback_message_of(report: Option<Seq<char>>, status_line: Seq<char>) -> Seq<char> {
    match report {
        Some(text) => text,
        None => "HTTP "@ + status_line,
    }
}

/// What the envelope of a response that no `AppError` built says: the
/// failure's own report where there is one, else the status line.
pub fn fallback_message(report: Option<String>, status_line: &str) -> (message: String)
    ensures
        message@ == fallback_message_of(crate::text::text_of(report), status_line@),
{
    match report {
        Some(text) => text,
        None => String::from_str("HTTP ").concat(status_line),
    }
}

} // verus!
