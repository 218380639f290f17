//! Error types for memo operations.

use vstd::prelude::*;


verus! {

/// Errors of the standard library's I/O, carried through unchanged.
#[verifier::external_type_specification]
#[verifier::external_body]
pub struct ExIoError(std::io::Error);

/// Errors of `serde_json`, carried through unchanged.
#[verifier::external_type_specification]
#[verifier::external_body]
pub struct ExJsonError(serde_json::Error);

/// The main error type for memo operations.
#[derive(Debug)]
pub enum MemoError {
    /// An I/O error occurred.
    Io(std::io::Error),
    /// Failed to compute digest.
    Digest(String),
    /// JSON serialization/deserialization error.
    Json(serde_json::Error),
    /// Home directory not found.
    HomeNotFound,
    /// Invalid command.
    InvalidCommand(String),
    /// Invalid TTL format.
    InvalidTtl(String),
}

/// The message shown for an error, for the variants whose payload is text
/// (`None` for those that carry an outside error).
pub open spec fn message_of(e: MemoError) -> Option<Seq<char>> {
    match e {
        MemoError::Io(_) => None,
        MemoError::Json(_) => None,
        MemoError::Digest(s) => Some("Failed to compute digest: "@ + s@),
        MemoError::HomeNotFound => Some("Cannot find home directory"@),
        MemoError::InvalidCommand(s) => Some("Invalid command: "@ + s@),
        MemoError::InvalidTtl(s) => Some("Invalid TTL: "@ + s@),
    }
}

/// The text that `std::io::Error` displays (`ToString::to_string`).
#[verifier::external_body]
fn io_error_text(e: &std::io::Error) -> String {
    e.to_string()
}

/// The text that `serde_json::Error` displays (`ToString::to_string`).
#[verifier::external_body]
fn json_error_text(e: &serde_json::Error) -> String {
    e.to_string()
}

/// Builds an I/O error of kind `Other` carrying `msg` (`std::io::Error::other`).
#[verifier::external_body]
fn io_error_other(msg: String) -> std::io::Error {
    std::io::Error::other(msg)
}

impl MemoError {
    /// The message shown to the user for this error.
    pub fn message(&self) -> (res: String)
        ensures
            message_of(*self) matches Some(m) ==> res@ == m,
            self is Io ==> res@.take(11) == "I/O error: "@,
            self is Json ==> res@.take(12) == "JSON error: "@,
    {
        proof {
            reveal_strlit("I/O error: ");
            reveal_strlit("JSON error: ");
        }
        match self {
            MemoError::Io(e) => {
                let mut res = String::from_str("I/O error: ");
                let t = io_error_text(e);
                res.append(t.as_str());
                assert(res@.take(11) =~= "I/O error: "@);
                res
            },
            MemoError::Json(e) => {
                let mut res = String::from_str("JSON error: ");
                let t = json_error_text(e);
                res.append(t.as_str());
                assert(res@.take(12) =~= "JSON error: "@);
                res
            },
            MemoError::Digest(s) => {
                let mut res = String::from_str("Failed to compute digest: ");
                res.append(s.as_str());
                res
            },
            MemoError::HomeNotFound => String::from_str("Cannot find home directory"),
            MemoError::InvalidCommand(s) => {
                let mut res = String::from_str("Invalid command: ");
                res.append(s.as_str());
                res
            },
            MemoError::InvalidTtl(s) => {
                let mut res = String::from_str("Invalid TTL: ");
                res.append(s.as_str());
                res
            },
        }
    }

    /// Converts into an I/O error: an I/O error is handed back as it was,
    /// any other becomes an error of kind `Other` carrying its message.
    pub fn into_io_error(self) -> (res: std::io::Error)
        ensures
            self matches MemoError::Io(e) ==> res == e,
    {
        match self {
            MemoError::Io(e) => e,
            other => {
                let msg = other.message();
                io_error_other(msg)
            },
        }
    }
}

impl From<std::io::Error> for MemoError {
    fn from(e: std::io::Error) -> (res: MemoError) {
        MemoError::Io(e)
    }
}

impl vstd::std_specs::convert::FromSpecImpl<std::io::Error> for MemoError {
    open spec fn obeys_from_spec() -> bool {
        true
    }

    open spec fn from_spec(e: std::io::Error) -> MemoError {
        MemoError::Io(e)
    }
}

impl From<serde_json::Error> for MemoError {
    fn from(e: serde_json::Error) -> (res: MemoError) {
        MemoError::Json(e)
    }
}

impl vstd::std_specs::convert::FromSpecImpl<serde_json::Error> for MemoError {
    open spec fn obeys_from_spec() -> bool {
        true
    }

    open spec fn from_spec(e: serde_json::Error) -> MemoError {
        MemoError::Json(e)
    }
}

} // verus!
