//! A WebAuthn software authenticator emulator and assertion verifier.
//!
//! The authenticator mints ECDSA P-256 credentials, emits the CBOR-encoded
//! attestation object and authenticator-data byte layouts of a registration,
//! and signs assertions; the verifier independently re-derives the signed
//! payload and checks the DER-encoded signature.

use vstd::prelude::*;

pub mod authenticator;
pub mod b64;
pub mod codec;
pub mod crypto;
pub mod utils;
pub mod verification;

verus! {

/// Errors the authenticator can hand back to a caller.
#[derive(Debug, Clone, Copy, PartialEq, Eq)]
pub enum AuthenticatorError {
    /// A supplied base64url string could not be decoded.
    DecodeError,
    /// The supplied credential ID is unknown to this authenticator instance.
    CredentialNotFound,
}

/// Errors of the format helpers.
#[derive(Debug, Clone, Copy, PartialEq, Eq)]
pub enum UtilsError {
    /// A supplied string could not be decoded (base64url or hex).
    DecodeError,
    /// A byte or bit position lies outside the decoded data.
    OutOfRange,
}

/// Error of the verifier: the input could not even be parsed.
///
/// A well-formed but cryptographically wrong signature is not an error; it is
/// the `false` result of a successful verification call.
#[derive(Debug, Clone, Copy, PartialEq, Eq)]
pub enum VerifyError {
    /// Malformed base64url, an invalid public key point, or a DER signature
    /// that does not parse.
    DecodeError,
}

} // verus!
