//! Reducing the result of one HTTP exchange to a typed value or a classified
//! error.

use vstd::prelude::*;
use crate::error::{DecodeIssue, DexError, IssueSpec};
use crate::json::{json_reading, parse_json};
use crate::model::{text_opt, CommonErrorResponse, Decode};

verus! {

/// What the transport brought back for one request.
#[derive(Clone, Debug)]
pub struct Reply {
    pub status: u16,
    pub headers: Vec<(String, String)>,
    pub body: String,
}

/// The success range of HTTP status codes.
pub open spec fn is_success(status: u16) -> bool {
    200 <= status <= 299
}

/// The message of an error envelope; absent where the body is not JSON or
/// not an envelope.
pub open spec fn envelope_message(body: Seq<char>) -> Option<Seq<char>> {
    match json_reading(body) {
        Some(j) => match CommonErrorResponse::decoded(j) {
            Ok(m) => m,
            Err(_) => None,
        },
        None => None,
    }
}

/// How a received reply is classified: a success status gives the typed
/// value read from the body, or a decode failure that keeps the headers and
/// the body; any other status gives a server failure with that status, the
/// requested url and the envelope's message.
pub open spec fn reply_outcome<T: Decode>(reply: Reply, url: Seq<char>, r: Result<T, DexError>) -> bool {
    if is_success(reply.status) {
        match json_reading(reply.body@) {
            None => r matches Err(DexError::Decode { issue, headers, body })
                && issue@ == IssueSpec::Syntax && headers@ == reply.headers@ && body@ == reply.body@,
            Some(j) => match T::decoded(j) {
                Ok(x) => r matches Ok(t) && t@ == x,
                Err(e) => r matches Err(DexError::Decode { issue, headers, body })
                    && issue@ == e && headers@ == reply.headers@ && body@ == reply.body@,
            },
        }
    } else {
        r matches Err(DexError::ServerResponse { status, url: u, message })
            && status == reply.status && u@ == url && text_opt(message) == envelope_message(reply.body@)
    }
}

/// How the result of sending a request is classified: a transport failure
/// is passed on with its cause, and a reply as [`reply_outcome`] says.
pub open spec fn request_outcome<T: Decode>(result: Result<Reply, String>, url: Seq<char>, r: Result<T, DexError>) -> bool {
    match result {
        Err(cause) => r matches Err(DexError::Transport(c)) && c@ == cause@,
        Ok(reply) => reply_outcome(reply, url, r),
    }
}

/// Reads the message of an error envelope, treating any failure to read it
/// as an absent message.
fn error_message(body: &str) -> (r: Option<String>)
    ensures
        text_opt(r) == envelope_message(body@),
{
    match parse_json(body) {
        Ok(v) => match CommonErrorResponse::decode(&v) {
            Ok(envelope) => envelope.message,
            Err(_) => None,
        },
        Err(_) => None,
    }
}

/// Classifies a reply that was received for the request sent to `url`.
pub fn handle_response<T: Decode>(reply: Reply, url: &str) -> (r: Result<T, DexError>)
    ensures
        reply_outcome(reply, url@, r),
{
    if 200 <= reply.status && reply.status <= 299 {
        match parse_json(reply.body.as_str()) {
            Err(e) => Err(
                DexError::Decode { issue: DecodeIssue::Syntax(e), headers: reply.headers, body: reply.body },
            ),
            Ok(v) => match T::decode(&v) {
                Ok(x) => Ok(x),
                Err(issue) => Err(DexError::Decode { issue, headers: reply.headers, body: reply.body }),
            },
        }
    } else {
        let message = error_message(reply.body.as_str());
        Err(DexError::ServerResponse { status: reply.status, url: url.to_owned(), message })
    }
}

/// Classifies the result of sending the request to `url`: a transport
/// failure is passed on as it is, with no body read; a reply is classified
/// by [`handle_response`].
pub fn handle_request<T: Decode>(result: Result<Reply, String>, url: &str) -> (r: Result<T, DexError>)
    ensures
        request_outcome(result, url@, r),
{
    match result {
        Err(cause) => Err(DexError::Transport(cause)),
        Ok(reply) => handle_response(reply, url),
    }
}

} // verus!
