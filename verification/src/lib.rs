//! A local signing and verification engine for JSON Web Signatures.
//!
//! Every operation is a function of its arguments and keeps no state. Failures
//! are returned as typed values; none of the functions here panics.
//!
//! Key material comes from users, so it is looked at before a reader of the
//! cryptographic library sees it: a key document that is malformed, or that
//! nests deeper than any key does, is refused as an invalid key.

pub mod asn1;
pub mod codec;
pub mod crypto;
pub mod keys;
pub mod registry;
pub mod signing;
pub mod text;
pub mod token;
pub mod verification;
