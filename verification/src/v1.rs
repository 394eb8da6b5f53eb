//! Error taxonomy of the version-one wire-format protocol layer.
//!
//! The unified taxonomy in [`crate::error`] wraps these values whole, so a
//! caller that receives [`crate::error::Error::V1`] can still match on the
//! structured cause.

use vstd::prelude::*;
use vstd::string::StringExecFns;

verus! {

/// A failure raised by the version-one protocol layer.
///
/// A value owns only plain text payloads, so it can be duplicated and
/// moved between concurrent workers freely.
#[derive(Debug, Clone)]
pub enum Error {
    /// The remote side answered a request with an error response.
    Rpc(String),
    /// The mining session could not be subscribed.
    Subscribe(String),
    /// A message body could not be read as the JSON the protocol expects.
    Json(String),
}

impl Error {
    /// The diagnostic text of this failure: a fixed template per variant
    /// with the stored message substituted.
    pub open spec fn spec_text(&self) -> Seq<char> {
        match *self {
            Error::Rpc(m) => "RPC error: "@ + m@,
            Error::Subscribe(m) => "subscribe failed: "@ + m@,
            Error::Json(m) => "JSON error: "@ + m@,
        }
    }

    /// Structural equality: same variant and the same stored text.
    pub open spec fn spec_eq(&self, other: &Error) -> bool {
        match (*self, *other) {
            (Error::Rpc(a), Error::Rpc(b)) => a@ == b@,
            (Error::Subscribe(a), Error::Subscribe(b)) => a@ == b@,
            (Error::Json(a), Error::Json(b)) => a@ == b@,
            _ => false,
        }
    }

    /// Renders the diagnostic text of this failure.
    pub fn render(&self) -> (r: String)
        ensures
            r@ == self.spec_text(),
    {
        match self {
            Error::Rpc(m) => "RPC error: ".to_owned().concat(m.as_str()),
            Error::Subscribe(m) => "subscribe failed: ".to_owned().concat(m.as_str()),
            Error::Json(m) => "JSON error: ".to_owned().concat(m.as_str()),
        }
    }
}

impl PartialEq for Error {
    fn eq(&self, other: &Error) -> (r: bool) {
        match (self, other) {
            (Error::Rpc(a), Error::Rpc(b)) => *a == *b,
            (Error::Subscribe(a), Error::Subscribe(b)) => *a == *b,
            (Error::Json(a), Error::Json(b)) => *a == *b,
            _ => false,
        }
    }
}

impl vstd::std_specs::cmp::PartialEqSpecImpl for Error {
    open spec fn obeys_eq_spec() -> bool {
        true
    }

    open spec fn eq_spec(&self, other: &Error) -> bool {
        self.spec_eq(other)
    }
}

} // verus!
