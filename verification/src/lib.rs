//! Unified error taxonomy for a stratum mining-protocol stack.
//!
//! Every fallible operation in the stack — transport I/O, framing,
//! (de)serialization, the encrypted Noise handshake, hash validation,
//! encoding, deadlines, and the two wire-format protocol layers — reports
//! failure through the one closed [`error::Error`] taxonomy.  The `error`
//! module holds the taxonomy, its fixed diagnostic templates, and one total
//! conversion per failure source; `v1` and `v2` hold the two protocol
//! layers' own structured taxonomies, which the unified type preserves
//! unchanged; `foreign` holds the trusted bridge to the outside error
//! types that are collapsed to rendered text at the boundary.

pub mod error;
pub mod foreign;
pub mod v1;
pub mod v2;
