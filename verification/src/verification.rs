//! The stateless verifier: re-derives the signed payload from the wire
//! strings and judges the DER-encoded ECDSA signature.

use vstd::prelude::*;

use crate::b64::{b64url_decode, b64url_parse};
use crate::crypto::{
    p256_der_sig_ok, p256_point_ok, p256_sig_verifies, p256_verify_der, sha256_bytes, sha256_of,
};
use crate::VerifyError;

verus! {

/// An ECDSA P-256 public key as a plain coordinate pair.
#[derive(Debug, Clone)]
pub struct PublicKey {
    pub x: Vec<u8>,
    pub y: Vec<u8>,
}

/// The verdict of `verify_assertion_signature` on given inputs: the
/// cryptographic verdict over the re-derived payload, or nothing when some
/// input does not even parse.
pub open spec fn verify_outcome(
    x: Seq<u8>,
    y: Seq<u8>,
    authenticator_data: Seq<char>,
    client_data_json: Seq<char>,
    signature: Seq<char>,
) -> Option<bool> {
    match (b64url_parse(authenticator_data), b64url_parse(client_data_json), b64url_parse(
        signature,
    )) {
        (Some(ad), Some(cdj), Some(sig)) => {
            if p256_point_ok(x, y) && p256_der_sig_ok(sig) {
                Some(p256_sig_verifies(x, y, ad + sha256_of(cdj), sig))
            } else {
                None
            }
        },
        _ => None,
    }
}

/// Verifies a WebAuthn assertion signature.
///
/// Decodes the three base64url inputs, recomputes the signed payload
/// `authenticatorData || SHA-256(clientDataJSON)`, and checks the ASN.1 DER
/// ECDSA signature against the given public key. Malformed input (bad
/// base64url, an invalid point, a DER string that does not parse) is a
/// `DecodeError`; a well-formed but wrong signature is `Ok(false)`.
pub fn verify_assertion_signature(
    public_key: &PublicKey,
    authenticator_data: &str,
    client_data_json: &str,
    signature: &str,
) -> (r: Result<bool, VerifyError>)
    ensures
        ({
            let outcome = verify_outcome(
                public_key.x@,
                public_key.y@,
                authenticator_data@,
                client_data_json@,
                signature@,
            );
            match r {
                Ok(b) => outcome == Some(b),
                Err(e) => outcome is None && e == VerifyError::DecodeError,
            }
        }),
{
    let auth_data_bytes = match b64url_decode(authenticator_data) {
        Some(v) => v,
        None => {
            return Err(VerifyError::DecodeError);
        },
    };
    let client_data_bytes = match b64url_decode(client_data_json) {
        Some(v) => v,
        None => {
            return Err(VerifyError::DecodeError);
        },
    };
    let signature_bytes = match b64url_decode(signature) {
        Some(v) => v,
        None => {
            return Err(VerifyError::DecodeError);
        },
    };

    let client_data_hash = sha256_bytes(client_data_bytes.as_slice());
    let mut signed_data: Vec<u8> = Vec::new();
    signed_data.extend_from_slice(auth_data_bytes.as_slice());
    signed_data.extend_from_slice(client_data_hash.as_slice());
    proof {
        assert(signed_data@ =~= auth_data_bytes@ + sha256_of(client_data_bytes@));
    }

    match p256_verify_der(
        public_key.x.as_slice(),
        public_key.y.as_slice(),
        signed_data.as_slice(),
        signature_bytes.as_slice(),
    ) {
        Some(b) => Ok(b),
        None => Err(VerifyError::DecodeError),
    }
}

/// Law: an assertion the authenticator just produced verifies. Whenever the
/// three wire strings decode back to an authenticator data, a clientData
/// JSON and a signature such that the signature verifies over
/// `authenticatorData || SHA-256(clientDataJSON)` under a valid public key
/// — which is exactly what `create_assertion` ensures of its outputs —
/// `verify_assertion_signature` on those strings returns `Ok(true)`.
pub proof fn lemma_assertion_verifies(
    x: Seq<u8>,
    y: Seq<u8>,
    ad: Seq<u8>,
    cdj: Seq<u8>,
    sig: Seq<u8>,
    authenticator_data: Seq<char>,
    client_data_json: Seq<char>,
    signature: Seq<char>,
)
    requires
        b64url_parse(authenticator_data) == Some(ad),
        b64url_parse(client_data_json) == Some(cdj),
        b64url_parse(signature) == Some(sig),
        p256_point_ok(x, y),
        p256_der_sig_ok(sig),
        p256_sig_verifies(x, y, ad + sha256_of(cdj), sig),
    ensures
        verify_outcome(x, y, authenticator_data, client_data_json, signature) == Some(true),
{
}

} // verus!
