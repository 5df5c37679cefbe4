//! Replies to requests that cannot be served.

use crate::json::{error_json, error_text, json_text};
use vstd::prelude::*;

verus! {

/// 400: the request itself is at fault.
pub const BAD_REQUEST: u16 = 400;

/// 500: the request failed on the way.
pub const INTERNAL_SERVER_ERROR: u16 = 500;

/// 501: the router does not serve this endpoint.
pub const NOT_IMPLEMENTED: u16 = 501;

/// 503: there is no worker to serve the request.
pub const SERVICE_UNAVAILABLE: u16 = 503;

/// An HTTP status and the message of the error.
#[derive(Debug)]
pub struct ErrorReply {
    pub status: u16,
    pub error: String,
}

impl ErrorReply {
    /// A reply with this status and this message.
    pub fn new(status: u16, error: String) -> (reply: ErrorReply)
        ensures
            reply.says(status, error@),
    {
        ErrorReply { status, error }
    }

    /// Whether the reply has this status and this message.
    pub open spec fn says(self, status: u16, error: Seq<char>) -> bool {
        self.status == status && self.error@ == error
    }

    /// The body of the reply: `{"error": message}`.
    pub fn body(&self) -> (text: String)
        ensures
            text@ == json_text(error_json(self.error@)),
    {
        error_text(self.error.as_str())
    }
}

} // verus!
