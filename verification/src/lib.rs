//! Verification of signed license documents.
//!
//! A license is a small JSON record (identifier, expiration instant, custom
//! data) that travels together with a flattened JSON Web Signature over the
//! very bytes the issuer signed. This crate builds a verifier from a public
//! key descriptor and decides, for a received envelope, whether the license
//! shown in clear is the one that was signed.

pub mod jose;
pub mod json;
pub mod license;
pub mod verification;

pub use license::{License, Timestamp, VerifiableLicense};
