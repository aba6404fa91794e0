//! Trusted wrappers around the cryptographic primitives: SHA-256 digests and
//! ECDSA P-256 key generation, DER signing and verification.
//!
//! Each wrapper's contract states only what the wrapped crate's source and
//! documentation show; results that no short formula can state are given
//! names (uninterpreted spec functions of the arguments alone).

use vstd::prelude::*;

use p256::ecdsa::signature::Signer;
use p256::ecdsa::signature::Verifier;
use sha2::Digest;

verus! {

/// The SHA-256 digest of a byte string.
pub uninterp spec fn sha256_of(data: Seq<u8>) -> Seq<u8>;

/// Relies on sha2::Sha256::digest: the digest is a function of the input
/// bytes alone and is exactly 32 bytes long.
#[verifier::external_body]
pub(crate) fn sha256_bytes(data: &[u8]) -> (r: Vec<u8>)
    ensures
        r@ == sha256_of(data@),
        r@.len() == 32,
{
    sha2::Sha256::digest(data).to_vec()
}

/// Whether a 32-byte string is a valid P-256 secret scalar (nonzero and below
/// the curve order), i.e. whether `SigningKey::from_bytes` accepts it.
pub uninterp spec fn p256_scalar_ok(scalar: Seq<u8>) -> bool;

/// The uncompressed SEC1 encoding (tag byte 0x04, then the x and y
/// coordinates, 32 bytes each) of the public point belonging to a secret
/// scalar, i.e. what `VerifyingKey::to_sec1_bytes` returns for that key.
pub uninterp spec fn p256_pub_point(scalar: Seq<u8>) -> Seq<u8>;

/// The x coordinate of the public point of a secret scalar.
pub open spec fn p256_pub_x(scalar: Seq<u8>) -> Seq<u8> {
    p256_pub_point(scalar).subrange(1, 33)
}

/// The y coordinate of the public point of a secret scalar.
pub open spec fn p256_pub_y(scalar: Seq<u8>) -> Seq<u8> {
    p256_pub_point(scalar).subrange(33, 65)
}

/// Whether a coordinate pair is a valid P-256 point, i.e. whether
/// `VerifyingKey::from_sec1_bytes` accepts its uncompressed SEC1 encoding.
pub uninterp spec fn p256_point_ok(x: Seq<u8>, y: Seq<u8>) -> bool;

/// The ASN.1 DER encoding of the ECDSA/SHA-256 signature that a secret
/// scalar produces over a message. Signing here is deterministic (the
/// ephemeral scalar comes from RFC 6979), so this is a function of the
/// scalar and the message alone.
pub uninterp spec fn p256_sig_der(scalar: Seq<u8>, msg: Seq<u8>) -> Seq<u8>;

/// Whether a byte string parses as an ASN.1 DER ECDSA signature, i.e.
/// whether `ecdsa::Signature::from_der` accepts it.
pub uninterp spec fn p256_der_sig_ok(sig: Seq<u8>) -> bool;

/// Whether ECDSA/P-256/SHA-256 verification of a DER-encoded signature over
/// a message succeeds under the public key with the given coordinates, i.e.
/// what `Verifier::verify` returns.
pub uninterp spec fn p256_sig_verifies(x: Seq<u8>, y: Seq<u8>, msg: Seq<u8>, sig: Seq<u8>) -> bool;

/// Relies on p256::ecdsa::SigningKey::random (fresh key material from the
/// process CSPRNG), SigningKey::to_bytes (the 32-byte secret scalar, always
/// accepted back by SigningKey::from_bytes), and
/// VerifyingKey::to_sec1_bytes (the uncompressed 65-byte point, which
/// VerifyingKey::from_sec1_bytes accepts). Returns the scalar and the two
/// public coordinates.
#[verifier::external_body]
pub(crate) fn p256_generate() -> (r: (Vec<u8>, Vec<u8>, Vec<u8>))
    ensures
        r.0@.len() == 32,
        r.1@.len() == 32,
        r.2@.len() == 32,
        p256_scalar_ok(r.0@),
        p256_pub_point(r.0@).len() == 65,
        r.1@ == p256_pub_x(r.0@),
        r.2@ == p256_pub_y(r.0@),
        p256_point_ok(r.1@, r.2@),
{
    let key = p256::ecdsa::SigningKey::random(&mut rand::thread_rng());
    let scalar = key.to_bytes().to_vec();
    let point = key.verifying_key().to_sec1_bytes();
    (scalar, point[1..33].to_vec(), point[33..65].to_vec())
}

/// Relies on p256::ecdsa::SigningKey::from_bytes and Signer::sign producing
/// an ecdsa DER signature: signing is deterministic (RFC 6979), the DER
/// bytes parse back with Signature::from_der, and the fresh signature
/// verifies under the key's own public point.
#[verifier::external_body]
pub(crate) fn p256_sign_der(scalar: &[u8], msg: &[u8]) -> (r: Vec<u8>)
    requires
        scalar@.len() == 32,
        p256_scalar_ok(scalar@),
    ensures
        r@ == p256_sig_der(scalar@, msg@),
        p256_der_sig_ok(r@),
        p256_sig_verifies(p256_pub_x(scalar@), p256_pub_y(scalar@), msg@, r@),
{
    let key = p256::ecdsa::SigningKey::from_bytes(p256::FieldBytes::from_slice(scalar)).unwrap();
    let sig: p256::ecdsa::DerSignature = key.sign(msg);
    sig.to_bytes().to_vec()
}

/// Relies on p256::ecdsa::VerifyingKey::from_sec1_bytes,
/// ecdsa::Signature::from_der and Verifier::verify: returns None exactly
/// when the point or the DER signature does not parse, and otherwise the
/// verification verdict.
#[verifier::external_body]
pub(crate) fn p256_verify_der(x: &[u8], y: &[u8], msg: &[u8], sig_der: &[u8]) -> (r: Option<
    bool,
>)
    ensures
        match r {
            Some(b) => p256_point_ok(x@, y@) && p256_der_sig_ok(sig_der@) && b
                == p256_sig_verifies(x@, y@, msg@, sig_der@),
            None => !(p256_point_ok(x@, y@) && p256_der_sig_ok(sig_der@)),
        },
{
    let mut sec1: Vec<u8> = vec![0x04];
    sec1.extend_from_slice(x);
    sec1.extend_from_slice(y);
    let key = match p256::ecdsa::VerifyingKey::from_sec1_bytes(&sec1) {
        Ok(k) => k,
        Err(_) => return None,
    };
    let sig = match p256::ecdsa::Signature::from_der(sig_der) {
        Ok(s) => s,
        Err(_) => return None,
    };
    Some(key.verify(msg, &sig).is_ok())
}

} // verus!
