//! The unified error taxonomy and its conversion matrix.
//!
//! [`Error`] is the one closed set of failure kinds the whole protocol
//! stack reports through.  Every conversion here is total and pure: a
//! foreign failure is rendered to text once, at the boundary, and the two
//! same-stack protocol taxonomies are wrapped whole.  Each kind renders
//! through a fixed template, stated exactly by [`Error::spec_text`].

use vstd::prelude::*;
use vstd::string::StringExecFns;

use crate::foreign;
use crate::v1;
use crate::v2;

verus! {

/// The closed failure taxonomy of the stack: exactly ten kinds.
///
/// Eight kinds own only the rendered text of the originating failure; the
/// foreign cause itself is never stored.  The two protocol kinds, [`Error::V1`]
/// and [`Error::V2`], own the structured error of the corresponding
/// same-stack protocol layer, preserved unchanged for further matching.
/// Every payload is plain owned data, so a value can be duplicated,
/// compared, and moved between concurrent workers freely.
#[derive(Debug, Clone)]
pub enum Error {
    /// The underlying transport or file I/O failed.
    Io(String),
    /// Structured data could not be (de)serialized.
    Serde(String),
    /// A failure with no more specific kind.
    General(String),
    /// A versioned artifact did not match the expected version:
    /// what was versioned, the actual version, the expected version.
    UnexpectedVersion(String, String, String),
    /// The encrypted-handshake layer failed.
    Noise(String),
    /// The version-one protocol layer failed.
    V1(v1::Error),
    /// The version-two protocol layer failed.
    V2(v2::Error),
    /// Textual hex decoding failed.
    HexDecode(String),
    /// A cryptographic hash value failed validation.
    BitcoinHash(String),
    /// An operation exceeded its deadline.
    Timeout(String),
}

/// The stack's uniform result contract: success type per operation, the
/// unified [`Error`] taxonomy as the one failure type.
pub type Result<T> = core::result::Result<T, Error>;

impl Error {
    /// The diagnostic text of an error: the fixed template of its kind
    /// with the stored payload substituted verbatim.
    pub open spec fn spec_text(&self) -> Seq<char> {
        match *self {
            Error::Io(m) => "I/O error: "@ + m@,
            Error::Serde(m) => "Serde: "@ + m@,
            Error::General(m) => "General error: "@ + m@,
            Error::UnexpectedVersion(what, actual, expected) => "Unexpected "@ + what@
                + " version: "@ + actual@ + ", expected: "@ + expected@,
            Error::Noise(m) => "Noise handshake error: "@ + m@,
            Error::V1(e) => "V1 error: "@ + e.spec_text(),
            Error::V2(e) => "V2 error: "@ + e.spec_text(),
            Error::HexDecode(m) => "Hex value decoding error: "@ + m@,
            Error::BitcoinHash(m) => "Invalid Bitcoin hash: "@ + m@,
            Error::Timeout(m) => "Timeout error: "@ + m@,
        }
    }

    /// Equality of two errors: the same kind, and payloads with the same
    /// text.  The two structured kinds defer to their layer's own
    /// structural equality.
    pub open spec fn spec_eq(&self, other: &Error) -> bool {
        match (*self, *other) {
            (Error::Io(a), Error::Io(b)) => a@ == b@,
            (Error::Serde(a), Error::Serde(b)) => a@ == b@,
            (Error::General(a), Error::General(b)) => a@ == b@,
            (
                Error::UnexpectedVersion(w1, a1, e1),
                Error::UnexpectedVersion(w2, a2, e2),
            ) => w1@ == w2@ && a1@ == a2@ && e1@ == e2@,
            (Error::Noise(a), Error::Noise(b)) => a@ == b@,
            (Error::V1(a), Error::V1(b)) => a.spec_eq(&b),
            (Error::V2(a), Error::V2(b)) => a.spec_eq(&b),
            (Error::HexDecode(a), Error::HexDecode(b)) => a@ == b@,
            (Error::BitcoinHash(a), Error::BitcoinHash(b)) => a@ == b@,
            (Error::Timeout(a), Error::Timeout(b)) => a@ == b@,
            _ => false,
        }
    }

    /// Renders the error for diagnostics: exactly the fixed template of
    /// its kind, deterministically, from the stored payload alone.
    pub fn render(&self) -> (r: String)
        ensures
            r@ == self.spec_text(),
    {
        match self {
            Error::Io(m) => "I/O error: ".to_owned().concat(m.as_str()),
            Error::Serde(m) => "Serde: ".to_owned().concat(m.as_str()),
            Error::General(m) => "General error: ".to_owned().concat(m.as_str()),
            Error::UnexpectedVersion(what, actual, expected) => "Unexpected ".to_owned().concat(
                what.as_str(),
            ).concat(" version: ").concat(actual.as_str()).concat(", expected: ").concat(
                expected.as_str(),
            ),
            Error::Noise(m) => "Noise handshake error: ".to_owned().concat(m.as_str()),
            Error::V1(e) => {
                let nested = e.render();
                "V1 error: ".to_owned().concat(nested.as_str())
            },
            Error::V2(e) => {
                let nested = e.render();
                "V2 error: ".to_owned().concat(nested.as_str())
            },
            Error::HexDecode(m) => "Hex value decoding error: ".to_owned().concat(m.as_str()),
            Error::BitcoinHash(m) => "Invalid Bitcoin hash: ".to_owned().concat(m.as_str()),
            Error::Timeout(m) => "Timeout error: ".to_owned().concat(m.as_str()),
        }
    }

    /// Maps an ad hoc text-slice message raised by application code to
    /// [`Error::General`], keeping the text verbatim.
    pub fn from_text(info: &str) -> (r: Error)
        ensures
            r matches Error::General(m) && m@ == info@,
    {
        Error::General(info.to_owned())
    }

    /// Maps the version-two layer's own (de)serialization failure to
    /// [`Error::Serde`], collapsing it to its rendered text.
    pub fn from_v2_serialization(e: v2::SerializationError) -> (r: Error)
        ensures
            r matches Error::Serde(m) && m@ == e.spec_text(),
    {
        Error::Serde(e.render())
    }

    /// Maps a transport or file I/O failure to [`Error::Io`], collapsing
    /// it to its rendered text.
    pub fn from_io(e: std::io::Error) -> (r: Error)
        ensures
            r is Io,
    {
        Error::Io(foreign::render_io_error(&e))
    }

    /// Maps a line-oriented decoding failure to [`Error::Io`], collapsing
    /// it to its rendered text.  The kind is I/O, not serialization,
    /// because the failure originates in the transport-framing layer.
    pub fn from_lines_codec(e: tokio_util::codec::LinesCodecError) -> (r: Error)
        ensures
            r is Io,
    {
        Error::Io(foreign::render_lines_codec_error(&e))
    }

    /// Maps a formatting failure to [`Error::General`], collapsing it to
    /// its rendered text.
    pub fn from_fmt(e: core::fmt::Error) -> (r: Error)
        ensures
            r matches Error::General(m) && m@ == foreign::fmt_error_text(e),
    {
        Error::General(foreign::render_fmt_error(&e))
    }

    /// Maps a UTF-8 validation failure to [`Error::General`], collapsing
    /// it to its rendered text.
    pub fn from_utf8(e: core::str::Utf8Error) -> (r: Error)
        ensures
            r matches Error::General(m) && m@ == foreign::utf8_error_text(e),
    {
        Error::General(foreign::render_utf8_error(&e))
    }

    /// Maps an encrypted-handshake library failure to [`Error::Noise`],
    /// collapsing it to its rendered text.
    pub fn from_snow(e: snow::Error) -> (r: Error)
        ensures
            r matches Error::Noise(m) && m@ == foreign::snow_error_text(e),
    {
        Error::Noise(foreign::render_snow_error(&e))
    }

    /// Maps a digital-signature verification failure to [`Error::Noise`]
    /// (handshake-adjacent), collapsing it to its rendered text.
    pub fn from_signature(e: ed25519_dalek::SignatureError) -> (r: Error)
        ensures
            r matches Error::Noise(m) && m@ == "signature error"@,
    {
        Error::Noise(foreign::render_signature_error(&e))
    }

    /// Maps a base58 decoding failure to [`Error::Noise`]
    /// (handshake-adjacent encoding), collapsing it to its rendered text.
    pub fn from_bs58(e: bs58::decode::Error) -> (r: Error)
        ensures
            r matches Error::Noise(m) && m@ == foreign::bs58_error_text(e),
    {
        Error::Noise(foreign::render_bs58_error(&e))
    }

    /// Maps a JSON (de)serialization failure to [`Error::Serde`],
    /// collapsing it to its rendered text.
    pub fn from_serde_json(e: serde_json::Error) -> (r: Error)
        ensures
            r is Serde,
    {
        Error::Serde(foreign::render_serde_json_error(&e))
    }

    /// Maps a hex decoding failure to [`Error::HexDecode`], collapsing it
    /// to its rendered text.
    pub fn from_hex(e: hex::FromHexError) -> (r: Error)
        ensures
            r matches Error::HexDecode(m) && m@ == foreign::hex_error_text(e),
    {
        Error::HexDecode(foreign::render_hex_error(&e))
    }

    /// Maps a hash validation failure to [`Error::BitcoinHash`],
    /// collapsing it to its rendered text.
    pub fn from_bitcoin_hash(e: bitcoin_hashes::Error) -> (r: Error)
        ensures
            r matches Error::BitcoinHash(m) && m@ == foreign::hash_error_text(e),
    {
        Error::BitcoinHash(foreign::render_hash_error(&e))
    }

    /// Maps a deadline-exceeded failure to [`Error::Timeout`], collapsing
    /// it to its rendered text.
    pub fn from_timeout(e: tokio::time::error::Elapsed) -> (r: Error)
        ensures
            r matches Error::Timeout(m) && m@ == "deadline has elapsed"@,
    {
        Error::Timeout(foreign::render_timeout_error(&e))
    }

    /// The structured version-one cause.  Only [`Error::V1`] preserves
    /// one; every other kind is terminal from this layer's view.
    pub fn v1_cause(&self) -> (r: Option<&v1::Error>)
        ensures
            r matches Some(e) ==> *self == Error::V1(*e),
            r is None <==> !(*self is V1),
    {
        match self {
            Error::V1(e) => Some(e),
            _ => None,
        }
    }

    /// The structured version-two cause.  Only [`Error::V2`] preserves
    /// one; every other kind is terminal from this layer's view.
    pub fn v2_cause(&self) -> (r: Option<&v2::Error>)
        ensures
            r matches Some(e) ==> *self == Error::V2(*e),
            r is None <==> !(*self is V2),
    {
        match self {
            Error::V2(e) => Some(e),
            _ => None,
        }
    }

    /// Whether this error carries a single rendered text message: every
    /// kind but the two structured ones and the three-part version
    /// mismatch.
    pub open spec fn is_text_only(&self) -> bool {
        ||| *self is Io
        ||| *self is Serde
        ||| *self is General
        ||| *self is Noise
        ||| *self is HexDecode
        ||| *self is BitcoinHash
        ||| *self is Timeout
    }

    /// Whether two errors are of the same kind.
    pub open spec fn same_kind(&self, other: &Error) -> bool {
        ||| (*self is Io && *other is Io)
        ||| (*self is Serde && *other is Serde)
        ||| (*self is General && *other is General)
        ||| (*self is UnexpectedVersion && *other is UnexpectedVersion)
        ||| (*self is Noise && *other is Noise)
        ||| (*self is V1 && *other is V1)
        ||| (*self is V2 && *other is V2)
        ||| (*self is HexDecode && *other is HexDecode)
        ||| (*self is BitcoinHash && *other is BitcoinHash)
        ||| (*self is Timeout && *other is Timeout)
    }
}

/// Appending different suffixes to one prefix gives different sequences,
/// and equal suffixes give equal sequences.
proof fn lemma_prefix_cancel(p: Seq<char>, a: Seq<char>, b: Seq<char>)
    ensures
        (p + a == p + b) <==> (a == b),
{
    if p + a == p + b {
        assert((p + a).len() == p.len() + a.len());
        assert((p + b).len() == p.len() + b.len());
        assert(a.len() == b.len());
        assert(a =~= b) by {
            assert forall|i: int| 0 <= i < a.len() implies a[i] == b[i] by {
                assert((p + a)[p.len() + i] == a[i]);
                assert((p + b)[p.len() + i] == b[i]);
            }
        }
    }
    if a == b {
        assert(p + a =~= p + b);
    }
}

/// Law: two message-carrying errors of the same kind are equal exactly
/// when their rendered diagnostic texts are equal — equality of such
/// errors is driven solely by the rendered text they store.
pub proof fn lemma_text_only_eq_is_rendering_eq(a: Error, b: Error)
    requires
        a.is_text_only(),
        b.is_text_only(),
        a.same_kind(&b),
    ensures
        a.spec_eq(&b) <==> a.spec_text() == b.spec_text(),
{
    match (a, b) {
        (Error::Io(x), Error::Io(y)) => lemma_prefix_cancel("I/O error: "@, x@, y@),
        (Error::Serde(x), Error::Serde(y)) => lemma_prefix_cancel("Serde: "@, x@, y@),
        (Error::General(x), Error::General(y)) => lemma_prefix_cancel(
            "General error: "@,
            x@,
            y@,
        ),
        (Error::Noise(x), Error::Noise(y)) => lemma_prefix_cancel(
            "Noise handshake error: "@,
            x@,
            y@,
        ),
        (Error::HexDecode(x), Error::HexDecode(y)) => lemma_prefix_cancel(
            "Hex value decoding error: "@,
            x@,
            y@,
        ),
        (Error::BitcoinHash(x), Error::BitcoinHash(y)) => lemma_prefix_cancel(
            "Invalid Bitcoin hash: "@,
            x@,
            y@,
        ),
        (Error::Timeout(x), Error::Timeout(y)) => lemma_prefix_cancel(
            "Timeout error: "@,
            x@,
            y@,
        ),
        _ => {},
    }
}

impl PartialEq for Error {
    fn eq(&self, other: &Error) -> (r: bool) {
        match (self, other) {
            (Error::Io(a), Error::Io(b)) => *a == *b,
            (Error::Serde(a), Error::Serde(b)) => *a == *b,
            (Error::General(a), Error::General(b)) => *a == *b,
            (
                Error::UnexpectedVersion(w1, a1, e1),
                Error::UnexpectedVersion(w2, a2, e2),
            ) => *w1 == *w2 && *a1 == *a2 && *e1 == *e2,
            (Error::Noise(a), Error::Noise(b)) => *a == *b,
            (Error::V1(a), Error::V1(b)) => *a == *b,
            (Error::V2(a), Error::V2(b)) => *a == *b,
            (Error::HexDecode(a), Error::HexDecode(b)) => *a == *b,
            (Error::BitcoinHash(a), Error::BitcoinHash(b)) => *a == *b,
            (Error::Timeout(a), Error::Timeout(b)) => *a == *b,
            _ => false,
        }
    }
}

impl vstd::std_specs::cmp::PartialEqSpecImpl for Error {
    open spec fn obeys_eq_spec() -> bool {
        true
    }

    open spec fn eq_spec(&self, other: &Error) -> bool {
        self.spec_eq(other)
    }
}

impl From<String> for Error {
    /// Maps an ad hoc owned message raised by application code to
    /// [`Error::General`], keeping the text verbatim.
    fn from(info: String) -> (r: Error) {
        Error::General(info)
    }
}

impl vstd::std_specs::convert::FromSpecImpl<String> for Error {
    open spec fn obeys_from_spec() -> bool {
        true
    }

    open spec fn from_spec(info: String) -> Error {
        Error::General(info)
    }
}

impl From<v1::Error> for Error {
    /// Wraps a version-one protocol failure whole, preserving its
    /// structure for further matching.
    fn from(e: v1::Error) -> (r: Error) {
        Error::V1(e)
    }
}

impl vstd::std_specs::convert::FromSpecImpl<v1::Error> for Error {
    open spec fn obeys_from_spec() -> bool {
        true
    }

    open spec fn from_spec(e: v1::Error) -> Error {
        Error::V1(e)
    }
}

impl From<v2::Error> for Error {
    /// Wraps a version-two protocol failure whole, preserving its
    /// structure for further matching.
    fn from(e: v2::Error) -> (r: Error) {
        Error::V2(e)
    }
}

impl vstd::std_specs::convert::FromSpecImpl<v2::Error> for Error {
    open spec fn obeys_from_spec() -> bool {
        true
    }

    open spec fn from_spec(e: v2::Error) -> Error {
        Error::V2(e)
    }
}

} // verus!

