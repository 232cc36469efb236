//! A typed, verified shim over a native flight-simulator interconnect SDK.
//!
//! The vendor SDK is an opaque native component reached over a C calling
//! convention; nothing of its behaviour is reimplemented here.  What this
//! crate owns — and what is verified — is the wrapper's own logic:
//!
//! * the connection lifecycle (a handle that is either unset or open),
//! * marshalling of high-level arguments into the foreign representation
//!   (strings checked for embedded NUL bytes, booleans mapped to `0`/`1`,
//!   enumerations mapped to the vendor's integer constants), and
//! * the mapping of raw native result codes to a typed outcome.
//!
//! Each vendor operation is exposed as a method that builds a fully
//! marshalled [`calls::ForeignCall`] description; a driver outside the
//! verified boundary performs the native call and feeds the raw result code
//! back through the completion functions.

pub mod calls;
pub mod laws;
pub mod marshal;
pub mod simconnect;
pub mod types;
