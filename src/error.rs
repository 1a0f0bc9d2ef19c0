//! The closed set of failures that a call of the library can end in.

use vstd::prelude::*;
use crate::auth::{hex_char, hex_digit};

verus! {

/// Why the body of a success response could not be read into its typed shape.
#[derive(Debug)]
pub enum DecodeIssue {
    /// The body is not JSON at all.
    Syntax(serde_json::Error),
    /// The document (or an item where an object is expected) is not an object.
    NotObject,
    /// A required field is absent or null.
    MissingField(String),
    /// A field holds a value of another JSON kind than the shape asks for.
    WrongType(String),
}

/// The model of a [`DecodeIssue`].
pub enum IssueSpec {
    Syntax,
    NotObject,
    MissingField(Seq<char>),
    WrongType(Seq<char>),
}

impl View for DecodeIssue {
    type V = IssueSpec;

    open spec fn view(&self) -> IssueSpec {
        match self {
            DecodeIssue::Syntax(_) => IssueSpec::Syntax,
            DecodeIssue::NotObject => IssueSpec::NotObject,
            DecodeIssue::MissingField(k) => IssueSpec::MissingField(k@),
            DecodeIssue::WrongType(k) => IssueSpec::WrongType(k@),
        }
    }
}

/// The outcome of a call that did not produce its typed value.
#[derive(Debug)]
pub enum DexError {
    /// The request got no response (connection, timeout, TLS, DNS); carries
    /// the transport's account of the cause.
    Transport(String),
    /// The server answered with a status outside the success range.
    ServerResponse { status: u16, url: String, message: Option<String> },
    /// A success response whose body does not have the expected shape; the
    /// response headers and the raw body are kept for diagnosis.
    Decode { issue: DecodeIssue, headers: Vec<(String, String)>, body: String },
    /// The client could not be built (a credential that is no header value,
    /// or a transport that failed to start).
    Construction(String),
}

/// The decimal digits of a number, most significant first.
pub open spec fn decimal_of(n: nat) -> Seq<char>
    decreases n,
{
    if n < 10 {
        seq![hex_char(n as int)]
    } else {
        decimal_of(n / 10).push(hex_char((n % 10) as int))
    }
}

/// Writes a number in decimal.
pub fn decimal(n: u16) -> (r: String)
    ensures
        r@ == decimal_of(n as nat),
    decreases n,
{
    if n < 10 {
        let mut s = String::new();
        s.append(hex_digit(n as u8));
        assert(s@ =~= decimal_of(n as nat));
        s
    } else {
        let mut s = decimal(n / 10);
        s.append(hex_digit((n % 10) as u8));
        assert(s@ =~= decimal_of(n as nat));
        s
    }
}

/// Relies on serde_json's `Display` for its error: a text for people.
#[verifier::external_body]
fn json_error_text(e: &serde_json::Error) -> String {
    e.to_string()
}

impl DecodeIssue {
    /// The account of the issue, for a person; that of a syntax error is
    /// serde_json's own.
    pub open spec fn describes(&self, text: Seq<char>) -> bool {
        match self {
            DecodeIssue::Syntax(_) => true,
            DecodeIssue::NotObject => text == "expected a JSON object"@,
            DecodeIssue::MissingField(k) => text == "missing field `"@ + k@ + "`"@,
            DecodeIssue::WrongType(k) => text == "invalid type for field `"@ + k@ + "`"@,
        }
    }

    /// Describes the issue.
    pub fn describe(&self) -> (r: String)
        ensures
            self.describes(r@),
    {
        match self {
            DecodeIssue::Syntax(e) => json_error_text(e),
            DecodeIssue::NotObject => "expected a JSON object".to_owned(),
            DecodeIssue::MissingField(k) => {
                let mut s = "missing field `".to_owned();
                s.append(k.as_str());
                s.append("`");
                s
            },
            DecodeIssue::WrongType(k) => {
                let mut s = "invalid type for field `".to_owned();
                s.append(k.as_str());
                s.append("`");
                s
            },
        }
    }
}

impl DexError {
    /// The account of the error, for a person.
    pub open spec fn describes(&self, text: Seq<char>) -> bool {
        match self {
            DexError::Transport(cause) => text == "Transport error: "@ + cause@,
            DexError::ServerResponse { status, url, message } => text == "Server returned error: "@
                + decimal_of(*status as nat) + ". Requested url: "@ + url@ + ", message: "@ + match message {
                Some(m) => m@,
                None => "none"@,
            },
            DexError::Decode { issue, .. } => exists|d: Seq<char>|
                issue.describes(d) && text == "Decode error: "@ + d,
            DexError::Construction(cause) => text == "Client construction error: "@ + cause@,
        }
    }

    /// Describes the error.
    pub fn describe(&self) -> (r: String)
        ensures
            self.describes(r@),
    {
        match self {
            DexError::Transport(cause) => {
                let mut s = "Transport error: ".to_owned();
                s.append(cause.as_str());
                s
            },
            DexError::ServerResponse { status, url, message } => {
                let mut s = "Server returned error: ".to_owned();
                s.append(decimal(*status).as_str());
                s.append(". Requested url: ");
                s.append(url.as_str());
                s.append(", message: ");
                match message {
                    Some(m) => s.append(m.as_str()),
                    None => s.append("none"),
                }
                s
            },
            DexError::Decode { issue, .. } => {
                let d = issue.describe();
                let mut s = "Decode error: ".to_owned();
                s.append(d.as_str());
                assert(issue.describes(d@) && s@ == "Decode error: "@ + d@);
                s
            },
            DexError::Construction(cause) => {
                let mut s = "Client construction error: ".to_owned();
                s.append(cause.as_str());
                s
            },
        }
    }
}

} // verus!
