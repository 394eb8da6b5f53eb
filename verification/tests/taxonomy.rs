//! Rendering templates and equality behaviour of the unified taxonomy.

use stratum::error::Error;
use stratum::v1;
use stratum::v2;

#[test]
fn io_renders_with_its_template() {
    let r = Error::Io(String::from("socket closed"));
    assert_eq!(r.render(), "I/O error: socket closed");
}

#[test]
fn serde_renders_with_its_template() {
    let r = Error::Serde(String::from("trailing characters"));
    assert_eq!(r.render(), "Serde: trailing characters");
}

#[test]
fn general_renders_with_its_template() {
    let r = Error::General(String::from("something odd"));
    assert_eq!(r.render(), "General error: something odd");
}

#[test]
fn unexpected_version_renders_with_its_template() {
    let r = Error::UnexpectedVersion(
        String::from("protocol"),
        String::from("1"),
        String::from("2"),
    );
    assert_eq!(r.render(), "Unexpected protocol version: 1, expected: 2");
}

#[test]
fn noise_renders_with_its_template() {
    let r = Error::Noise(String::from("decrypt error"));
    assert_eq!(r.render(), "Noise handshake error: decrypt error");
}

#[test]
fn v1_renders_with_its_template() {
    let r = Error::V1(v1::Error::Rpc(String::from("unknown method")));
    assert_eq!(r.render(), "V1 error: RPC error: unknown method");
}

#[test]
fn v2_renders_with_its_template() {
    let r = Error::V2(v2::Error::Framing(String::from("short header")));
    assert_eq!(r.render(), "V2 error: framing error: short header");
}

#[test]
fn hex_decode_renders_with_its_template() {
    let r = Error::HexDecode(String::from("Odd number of digits"));
    assert_eq!(r.render(), "Hex value decoding error: Odd number of digits");
}

#[test]
fn bitcoin_hash_renders_with_its_template() {
    let r = Error::BitcoinHash(String::from("invalid slice length 16 (expected 32)"));
    assert_eq!(
        r.render(),
        "Invalid Bitcoin hash: invalid slice length 16 (expected 32)"
    );
}

#[test]
fn timeout_renders_with_its_template() {
    let r = Error::Timeout(String::from("deadline has elapsed"));
    assert_eq!(r.render(), "Timeout error: deadline has elapsed");
}

#[test]
fn empty_message_renders_as_bare_template() {
    let r = Error::Io(String::new());
    assert_eq!(r.render(), "I/O error: ");
}

#[test]
fn equality_is_driven_by_rendered_text() {
    let a = std::io::Error::new(std::io::ErrorKind::Other, "first");
    let b = std::io::Error::new(std::io::ErrorKind::Other, "second");
    let ra = Error::from_io(a);
    let rb = Error::from_io(b);
    assert_ne!(ra, rb);

    let c = std::io::Error::new(std::io::ErrorKind::Other, "same words");
    let d = std::io::Error::new(std::io::ErrorKind::BrokenPipe, "same words");
    assert_eq!(Error::from_io(c), Error::from_io(d));
}

#[test]
fn equality_distinguishes_kinds() {
    assert_ne!(
        Error::Io(String::from("boom")),
        Error::Serde(String::from("boom"))
    );
    assert_ne!(
        Error::Noise(String::from("boom")),
        Error::General(String::from("boom"))
    );
}

#[test]
fn unexpected_version_equality_is_componentwise() {
    let a = Error::UnexpectedVersion(
        String::from("protocol"),
        String::from("1"),
        String::from("2"),
    );
    let b = Error::UnexpectedVersion(
        String::from("protocol"),
        String::from("1"),
        String::from("2"),
    );
    let c = Error::UnexpectedVersion(
        String::from("protocol"),
        String::from("2"),
        String::from("2"),
    );
    assert_eq!(a, b);
    assert_ne!(a, c);
}

#[test]
fn nested_equality_defers_to_the_nested_taxonomy() {
    let a = Error::V1(v1::Error::Json(String::from("eof")));
    let b = Error::V1(v1::Error::Json(String::from("eof")));
    let c = Error::V1(v1::Error::Rpc(String::from("eof")));
    assert_eq!(a, b);
    assert_ne!(a, c);
}

#[test]
fn duplication_preserves_equality() {
    let r = Error::V2(v2::Error::Protocol(String::from("out of turn")));
    assert_eq!(r.clone(), r);
    let s = Error::UnexpectedVersion(
        String::from("header"),
        String::from("3"),
        String::from("4"),
    );
    assert_eq!(s.clone(), s);
}

#[test]
fn result_alias_carries_the_unified_error() {
    let ok: stratum::error::Result<u32> = Ok(7);
    let err: stratum::error::Result<u32> = Err(Error::from_text("no luck"));
    assert_eq!(ok.unwrap(), 7);
    assert_eq!(err.unwrap_err(), Error::General(String::from("no luck")));
}

#[test]
fn structured_cause_is_exposed_only_for_protocol_kinds() {
    let nested = v1::Error::Rpc(String::from("stale job"));
    let r = Error::V1(nested.clone());
    assert_eq!(r.v1_cause(), Some(&nested));
    assert_eq!(r.v2_cause(), None);

    let nested2 = v2::Error::Protocol(String::from("bad sequence"));
    let s = Error::V2(nested2.clone());
    assert_eq!(s.v2_cause(), Some(&nested2));
    assert_eq!(s.v1_cause(), None);

    let t = Error::Io(String::from("boom"));
    assert_eq!(t.v1_cause(), None);
    assert_eq!(t.v2_cause(), None);
}
