//! End-to-end registration and authentication flows of the software
//! authenticator, checked against the wire formats byte by byte.

use sha2::Digest;

use softauthn::authenticator::SoftwareAuthenticator;
use softauthn::utils::{generate_challenge, generate_user_id};
use softauthn::verification::verify_assertion_signature;
use softauthn::AuthenticatorError;

#[test]
fn basic_flow_scenario() {
    // Register for a 64-zero-byte user at relying party "localhost".
    let mut authenticator = SoftwareAuthenticator::new();
    let user_id = vec![0u8; 64];
    let challenge = generate_challenge();
    let (credential_id, credential_type, attestation_object, _client_data_json) = authenticator
        .create_credential(&challenge, &user_id, "localhost", false)
        .unwrap();
    assert_eq!(credential_type, "public-key");

    // The attestation object is a CBOR map whose first entry is "fmt" -> "none".
    let attestation = base64_url::decode(&attestation_object).unwrap();
    assert_eq!(
        &attestation[..10],
        &[0xa3, 0x63, b'f', b'm', b't', 0x64, b'n', b'o', b'n', b'e']
    );

    // A fresh assertion verifies under the authenticator's own public key.
    let auth_challenge = generate_challenge();
    let (cred_id, cred_type, auth_data, client_json, signature, user_handle) = authenticator
        .create_assertion(&credential_id, &auth_challenge, "localhost", false)
        .unwrap();
    assert_eq!(cred_id, credential_id);
    assert_eq!(cred_type, "public-key");
    assert!(user_handle.is_none());

    let public_key = authenticator.verifying_key(&credential_id).unwrap();
    let verified =
        verify_assertion_signature(&public_key, &auth_data, &client_json, &signature).unwrap();
    assert!(verified);

    // Flipping bit 0 of byte 0 of the signature must not verify any more.
    let corrupted = softauthn::utils::flip_bit_at_position(&signature, 0, 0).unwrap();
    let result = verify_assertion_signature(&public_key, &auth_data, &client_json, &corrupted);
    assert!(!matches!(result, Ok(true)));
}

#[test]
fn attestation_embeds_rp_hash_and_public_key() {
    let mut authenticator = SoftwareAuthenticator::new();
    let user_id = generate_user_id();
    let challenge = generate_challenge();
    let (credential_id, _, attestation_object, _) = authenticator
        .create_credential(&challenge, &user_id, "example.org", true)
        .unwrap();

    let attestation = base64_url::decode(&attestation_object).unwrap();
    assert_eq!(attestation.len(), 226);
    let auth_data = &attestation[30..226];

    // rpIdHash is SHA-256 of the relying-party ID.
    let rp_hash = sha2::Sha256::digest("example.org".as_bytes());
    assert_eq!(&auth_data[..32], rp_hash.as_slice());

    // Flags: user present, user verified, attested data; no extensions.
    assert_eq!(auth_data[32], 0x45);

    // Counter is 1 after the first registration, big-endian.
    assert_eq!(&auth_data[33..37], &[0, 0, 0, 1]);

    // AAGUID is all zero; the credential ID is 64 bytes long.
    assert!(auth_data[37..53].iter().all(|b| *b == 0));
    assert_eq!(&auth_data[53..55], &[0, 64]);
    let credential_id_bytes = base64_url::decode(&credential_id).unwrap();
    assert_eq!(&auth_data[55..119], credential_id_bytes.as_slice());

    // The COSE key embeds the stored public key's coordinates.
    let public_key = authenticator.verifying_key(&credential_id).unwrap();
    assert_eq!(
        &auth_data[119..129],
        &[0xa5, 0x01, 0x02, 0x03, 0x26, 0x20, 0x01, 0x21, 0x58, 0x20]
    );
    assert_eq!(&auth_data[129..161], public_key.x.as_slice());
    assert_eq!(&auth_data[161..164], &[0x22, 0x58, 0x20]);
    assert_eq!(&auth_data[164..196], public_key.y.as_slice());
}

#[test]
fn assertion_roundtrip_for_every_credential() {
    let mut authenticator = SoftwareAuthenticator::new();
    let mut ids: Vec<String> = Vec::new();
    for _ in 0..3 {
        let challenge = generate_challenge();
        let user_id = generate_user_id();
        let (id, _, _, _) = authenticator
            .create_credential(&challenge, &user_id, "localhost", false)
            .unwrap();
        ids.push(id);
    }
    for id in &ids {
        let auth_challenge = generate_challenge();
        let (_, _, auth_data, client_json, signature, _) = authenticator
            .create_assertion(id, &auth_challenge, "localhost", false)
            .unwrap();
        let public_key = authenticator.verifying_key(id).unwrap();
        let verified =
            verify_assertion_signature(&public_key, &auth_data, &client_json, &signature).unwrap();
        assert!(verified);
    }
}

#[test]
fn counter_increments_by_one_per_call() {
    let mut authenticator = SoftwareAuthenticator::new();
    assert_eq!(authenticator.signature_counter(), 0);

    let challenge = generate_challenge();
    let user_id = generate_user_id();
    let (credential_id, _, _, _) = authenticator
        .create_credential(&challenge, &user_id, "localhost", false)
        .unwrap();
    assert_eq!(authenticator.signature_counter(), 1);

    let (_, _, auth_data, _, _, _) = authenticator
        .create_assertion(&credential_id, &generate_challenge(), "localhost", false)
        .unwrap();
    assert_eq!(authenticator.signature_counter(), 2);
    // The signed counter bytes carry the new value, big-endian.
    let auth_data_bytes = base64_url::decode(&auth_data).unwrap();
    assert_eq!(auth_data_bytes.len(), 37);
    assert_eq!(&auth_data_bytes[33..37], &[0, 0, 0, 2]);

    let (_, _, auth_data2, _, _, _) = authenticator
        .create_assertion(&credential_id, &generate_challenge(), "localhost", false)
        .unwrap();
    assert_eq!(authenticator.signature_counter(), 3);
    let auth_data_bytes2 = base64_url::decode(&auth_data2).unwrap();
    assert_eq!(&auth_data_bytes2[33..37], &[0, 0, 0, 3]);
}

#[test]
fn unknown_credential_id_not_found() {
    let mut authenticator = SoftwareAuthenticator::new();
    let challenge = generate_challenge();
    let user_id = generate_user_id();
    authenticator
        .create_credential(&challenge, &user_id, "localhost", false)
        .unwrap();

    // A random, never-registered 64-byte ID.
    let unknown = base64_url::encode(&generate_user_id());
    let result =
        authenticator.create_assertion(&unknown, &generate_challenge(), "localhost", false);
    assert_eq!(result.unwrap_err(), AuthenticatorError::CredentialNotFound);

    // An ID that is not even base64url.
    let result =
        authenticator.create_assertion("!!!not-base64!!!", &generate_challenge(), "localhost", false);
    assert_eq!(result.unwrap_err(), AuthenticatorError::DecodeError);

    // The counter does not advance on a failed assertion.
    assert_eq!(authenticator.signature_counter(), 1);
}

#[test]
fn two_registrations_same_user_are_independent() {
    let mut authenticator = SoftwareAuthenticator::new();
    let user_id = generate_user_id();
    let (id1, _, _, _) = authenticator
        .create_credential(&generate_challenge(), &user_id, "localhost", false)
        .unwrap();
    let (id2, _, _, _) = authenticator
        .create_credential(&generate_challenge(), &user_id, "localhost", false)
        .unwrap();

    assert_ne!(id1, id2);
    let pk1 = authenticator.verifying_key(&id1).unwrap();
    let pk2 = authenticator.verifying_key(&id2).unwrap();
    assert!(pk1.x != pk2.x || pk1.y != pk2.y);

    let ids = authenticator.get_stored_credential_ids();
    assert_eq!(ids, vec![id1, id2]);
}

#[test]
fn verifying_key_unknown_id() {
    let mut authenticator = SoftwareAuthenticator::new();
    authenticator
        .create_credential(&generate_challenge(), &generate_user_id(), "localhost", false)
        .unwrap();
    assert!(authenticator.verifying_key(&base64_url::encode(&[1u8; 64])).is_none());
    assert!(authenticator.verifying_key("?not?base64?").is_none());
}
