//! Error taxonomy of the version-two wire-format protocol layer.
//!
//! The unified taxonomy in [`crate::error`] wraps an [`Error`] whole, so a
//! caller that receives [`crate::error::Error::V2`] can still match on the
//! structured cause.  The layer's own binary (de)serializer reports its
//! failures with [`SerializationError`], which the unified taxonomy
//! collapses to rendered text under its serialization kind.

use vstd::prelude::*;
use vstd::string::StringExecFns;

verus! {

/// A failure raised by the version-two protocol layer.
///
/// A value owns only plain text payloads, so it can be duplicated and
/// moved between concurrent workers freely.
#[derive(Debug, Clone)]
pub enum Error {
    /// A frame arrived whose framing header is malformed.
    Framing(String),
    /// A frame named a message type this layer does not know.
    UnknownMessage(String),
    /// The remote side broke a rule of the message exchange.
    Protocol(String),
}

/// A failure of the version-two layer's own binary (de)serializer.
#[derive(Debug, Clone)]
pub enum SerializationError {
    /// A value could not be encoded or decoded; the message says why.
    Message(String),
    /// The input ended before the value was complete.
    UnexpectedEnd,
    /// Bytes were left over after the value was complete.
    TrailingBytes,
}

impl Error {
    /// The diagnostic text of this failure: a fixed template per variant
    /// with the stored message substituted.
    pub open spec fn spec_text(&self) -> Seq<char> {
        match *self {
            Error::Framing(m) => "framing error: "@ + m@,
            Error::UnknownMessage(m) => "unknown message: "@ + m@,
            Error::Protocol(m) => "protocol violation: "@ + m@,
        }
    }

    /// Structural equality: same variant and the same stored text.
    pub open spec fn spec_eq(&self, other: &Error) -> bool {
        match (*self, *other) {
            (Error::Framing(a), Error::Framing(b)) => a@ == b@,
            (Error::UnknownMessage(a), Error::UnknownMessage(b)) => a@ == b@,
            (Error::Protocol(a), Error::Protocol(b)) => a@ == b@,
            _ => false,
        }
    }

    /// Renders the diagnostic text of this failure.
    pub fn render(&self) -> (r: String)
        ensures
            r@ == self.spec_text(),
    {
        match self {
            Error::Framing(m) => "framing error: ".to_owned().concat(m.as_str()),
            Error::UnknownMessage(m) => "unknown message: ".to_owned().concat(m.as_str()),
            Error::Protocol(m) => "protocol violation: ".to_owned().concat(m.as_str()),
        }
    }
}

impl PartialEq for Error {
    fn eq(&self, other: &Error) -> (r: bool) {
        match (self, other) {
            (Error::Framing(a), Error::Framing(b)) => *a == *b,
            (Error::UnknownMessage(a), Error::UnknownMessage(b)) => *a == *b,
            (Error::Protocol(a), Error::Protocol(b)) => *a == *b,
            _ => false,
        }
    }
}

impl vstd::std_specs::cmp::PartialEqSpecImpl for Error {
    open spec fn obeys_eq_spec() -> bool {
        true
    }

    open spec fn eq_spec(&self, other: &Error) -> bool {
        self.spec_eq(other)
    }
}

impl SerializationError {
    /// The diagnostic text of this failure.
    pub open spec fn spec_text(&self) -> Seq<char> {
        match *self {
            SerializationError::Message(m) => "serialization error: "@ + m@,
            SerializationError::UnexpectedEnd => "unexpected end of input"@,
            SerializationError::TrailingBytes => "trailing bytes after value"@,
        }
    }

    /// Structural equality: same variant and the same stored text.
    pub open spec fn spec_eq(&self, other: &SerializationError) -> bool {
        match (*self, *other) {
            (SerializationError::Message(a), SerializationError::Message(b)) => a@ == b@,
            (SerializationError::UnexpectedEnd, SerializationError::UnexpectedEnd) => true,
            (SerializationError::TrailingBytes, SerializationError::TrailingBytes) => true,
            _ => false,
        }
    }

    /// Renders the diagnostic text of this failure.
    pub fn render(&self) -> (r: String)
        ensures
            r@ == self.spec_text(),
    {
        match self {
            SerializationError::Message(m) => "serialization error: ".to_owned().concat(
                m.as_str(),
            ),
            SerializationError::UnexpectedEnd => "unexpected end of input".to_owned(),
            SerializationError::TrailingBytes => "trailing bytes after value".to_owned(),
        }
    }
}

impl PartialEq for SerializationError {
    fn eq(&self, other: &SerializationError) -> (r: bool) {
        match (self, other) {
            (SerializationError::Message(a), SerializationError::Message(b)) => *a == *b,
            (SerializationError::UnexpectedEnd, SerializationError::UnexpectedEnd) => true,
            (SerializationError::TrailingBytes, SerializationError::TrailingBytes) => true,
            _ => false,
        }
    }
}

impl vstd::std_specs::cmp::PartialEqSpecImpl for SerializationError {
    open spec fn obeys_eq_spec() -> bool {
        true
    }

    open spec fn eq_spec(&self, other: &SerializationError) -> bool {
        self.spec_eq(other)
    }
}

} // verus!
