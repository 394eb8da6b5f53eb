//! Trusted bridge to the outside error types the stack collapses to text.
//!
//! The unified taxonomy never stores a foreign error value: each one is
//! rendered once, here, to the plain text that [`crate::error::Error`]
//! keeps.  Every function in this module is a thin trusted wrapper around
//! one outside rendering routine.  Where that routine's text is a pure
//! function of the error value alone (a plain data enum rendered through
//! fixed templates), the wrapper's contract names the text, so callers can
//! state their results exactly; where it is fixed outright, the contract
//! states the text itself.  The texts of `std::io::Error`,
//! `tokio_util::codec::LinesCodecError` and `serde_json::Error` can depend
//! on the platform's wording of an operating-system error, so nothing is
//! claimed of them.

use vstd::prelude::*;

use bitcoin_hashes::Error as BitcoinHashesError;
use bs58::decode::Error as Bs58DecodeError;
use serde_json::Error as SerdeJsonError;
use snow::Error as SnowError;

verus! {

#[verifier::external_type_specification]
#[verifier::external_body]
pub struct ExIoError(std::io::Error);

#[verifier::external_type_specification]
#[verifier::external_body]
pub struct ExFmtError(core::fmt::Error);

#[verifier::external_type_specification]
#[verifier::external_body]
pub struct ExUtf8Error(core::str::Utf8Error);

#[verifier::external_type_specification]
#[verifier::external_body]
pub struct ExSnowError(SnowError);

#[verifier::external_type_specification]
#[verifier::external_body]
pub struct ExSignatureError(ed25519_dalek::SignatureError);

#[verifier::external_type_specification]
#[verifier::external_body]
pub struct ExBs58DecodeError(Bs58DecodeError);

#[verifier::external_type_specification]
#[verifier::external_body]
pub struct ExSerdeJsonError(SerdeJsonError);

#[verifier::external_type_specification]
#[verifier::external_body]
pub struct ExFromHexError(hex::FromHexError);

#[verifier::external_type_specification]
#[verifier::external_body]
pub struct ExBitcoinHashError(BitcoinHashesError);

#[verifier::external_type_specification]
#[verifier::external_body]
pub struct ExLinesCodecError(tokio_util::codec::LinesCodecError);

#[verifier::external_type_specification]
#[verifier::external_body]
pub struct ExElapsed(tokio::time::error::Elapsed);

/// The diagnostic text of a formatting failure.  `core::fmt::Error` is a
/// unit type, so its text is a function of the value alone.
pub uninterp spec fn fmt_error_text(e: core::fmt::Error) -> Seq<char>;

/// The diagnostic text of a UTF-8 validation failure: a pure function of
/// the error value (the failing position and length it records).
pub uninterp spec fn utf8_error_text(e: core::str::Utf8Error) -> Seq<char>;

/// The diagnostic text of a Noise handshake failure: `snow::Error` is a
/// plain data enum rendered through fixed templates, so its text is a
/// function of the value alone.
pub uninterp spec fn snow_error_text(e: snow::Error) -> Seq<char>;

/// The diagnostic text of a base58 decoding failure: `bs58::decode::Error`
/// is a plain data enum rendered through fixed templates, so its text is a
/// function of the value alone.
pub uninterp spec fn bs58_error_text(e: bs58::decode::Error) -> Seq<char>;

/// The diagnostic text of a hex decoding failure: `hex::FromHexError` is a
/// plain data enum rendered through fixed templates, so its text is a
/// function of the value alone.
pub uninterp spec fn hex_error_text(e: hex::FromHexError) -> Seq<char>;

/// The diagnostic text of a hash validation failure:
/// `bitcoin_hashes::Error` is a plain data enum rendered through a fixed
/// template, so its text is a function of the value alone.
pub uninterp spec fn hash_error_text(e: bitcoin_hashes::Error) -> Seq<char>;

/// Relies on `Display for std::io::Error`: renders the failure's
/// diagnostic text.  The text of an operating-system error is worded by
/// the platform, so nothing further is claimed of it.
#[verifier::external_body]
pub(crate) fn render_io_error(e: &std::io::Error) -> String {
    e.to_string()
}

/// Relies on `Display for tokio_util::codec::LinesCodecError`: renders the
/// failure's diagnostic text.  The variant that wraps an I/O failure
/// renders with the platform's wording, so nothing further is claimed.
#[verifier::external_body]
pub(crate) fn render_lines_codec_error(e: &tokio_util::codec::LinesCodecError) -> String {
    e.to_string()
}

/// Relies on `Display for serde_json::Error`: renders the failure's
/// diagnostic text.  A value of that type can wrap an I/O failure, which
/// renders with the platform's wording, so nothing further is claimed.
#[verifier::external_body]
pub(crate) fn render_serde_json_error(e: &serde_json::Error) -> String {
    e.to_string()
}

/// Relies on `Display for core::fmt::Error`: renders the failure's fixed
/// diagnostic text.
#[verifier::external_body]
pub(crate) fn render_fmt_error(e: &core::fmt::Error) -> (r: String)
    ensures
        r@ == fmt_error_text(*e),
{
    e.to_string()
}

/// Relies on `Display for core::str::Utf8Error`: renders the failure's
/// diagnostic text, determined by the recorded position and length alone.
#[verifier::external_body]
pub(crate) fn render_utf8_error(e: &core::str::Utf8Error) -> (r: String)
    ensures
        r@ == utf8_error_text(*e),
{
    e.to_string()
}

/// Relies on `Display for snow::Error`: renders the failure's diagnostic
/// text, determined by the error value alone.
#[verifier::external_body]
pub(crate) fn render_snow_error(e: &snow::Error) -> (r: String)
    ensures
        r@ == snow_error_text(*e),
{
    e.to_string()
}

/// Relies on `Display for ed25519_dalek::SignatureError` (the `signature`
/// crate's opaque error), which writes exactly `signature error` for every
/// value.
#[verifier::external_body]
pub(crate) fn render_signature_error(e: &ed25519_dalek::SignatureError) -> (r: String)
    ensures
        r@ == "signature error"@,
{
    e.to_string()
}

/// Relies on `Display for bs58::decode::Error`: renders the failure's
/// diagnostic text, determined by the error value alone.
#[verifier::external_body]
pub(crate) fn render_bs58_error(e: &bs58::decode::Error) -> (r: String)
    ensures
        r@ == bs58_error_text(*e),
{
    e.to_string()
}

/// Relies on `Display for hex::FromHexError`: renders the failure's
/// diagnostic text, determined by the error value alone.
#[verifier::external_body]
pub(crate) fn render_hex_error(e: &hex::FromHexError) -> (r: String)
    ensures
        r@ == hex_error_text(*e),
{
    e.to_string()
}

/// Relies on `Display for bitcoin_hashes::Error`: renders the failure's
/// diagnostic text, determined by the recorded lengths alone.
#[verifier::external_body]
pub(crate) fn render_hash_error(e: &bitcoin_hashes::Error) -> (r: String)
    ensures
        r@ == hash_error_text(*e),
{
    e.to_string()
}

/// Relies on `Display for tokio::time::error::Elapsed`, which writes
/// exactly `deadline has elapsed` for every value.
#[verifier::external_body]
pub(crate) fn render_timeout_error(e: &tokio::time::error::Elapsed) -> (r: String)
    ensures
        r@ == "deadline has elapsed"@,
{
    e.to_string()
}

} // verus!
