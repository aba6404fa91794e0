//! Single-bit corruption of each wire field must defeat verification (or be
//! rejected outright as malformed input), and the bit-flip helpers must do
//! exactly what they say.

use softauthn::authenticator::SoftwareAuthenticator;
use softauthn::utils::{flip_bit_at_position, flip_bit_in_base64, generate_challenge, generate_user_id};
use softauthn::verification::verify_assertion_signature;
use softauthn::UtilsError;

fn registered_assertion() -> (SoftwareAuthenticator, String, String, String, String) {
    let mut authenticator = SoftwareAuthenticator::new();
    let challenge = generate_challenge();
    let user_id = generate_user_id();
    let (credential_id, _, _, _) = authenticator
        .create_credential(&challenge, &user_id, "localhost", false)
        .unwrap();
    let (_, _, auth_data, client_json, signature, _) = authenticator
        .create_assertion(&credential_id, &generate_challenge(), "localhost", false)
        .unwrap();
    (authenticator, credential_id, auth_data, client_json, signature)
}

#[test]
fn bit_flip_signature_defeats_verification() {
    let (authenticator, credential_id, auth_data, client_json, signature) = registered_assertion();
    let public_key = authenticator.verifying_key(&credential_id).unwrap();
    assert!(verify_assertion_signature(&public_key, &auth_data, &client_json, &signature).unwrap());
    for _ in 0..8 {
        let corrupted = flip_bit_in_base64(&signature).unwrap();
        let result = verify_assertion_signature(&public_key, &auth_data, &client_json, &corrupted);
        assert!(!matches!(result, Ok(true)));
    }
}

#[test]
fn bit_flip_authenticator_data_defeats_verification() {
    let (authenticator, credential_id, auth_data, client_json, signature) = registered_assertion();
    let public_key = authenticator.verifying_key(&credential_id).unwrap();
    for _ in 0..8 {
        let corrupted = flip_bit_in_base64(&auth_data).unwrap();
        let result = verify_assertion_signature(&public_key, &corrupted, &client_json, &signature);
        assert!(!matches!(result, Ok(true)));
    }
}

#[test]
fn bit_flip_client_data_defeats_verification() {
    let (authenticator, credential_id, auth_data, client_json, signature) = registered_assertion();
    let public_key = authenticator.verifying_key(&credential_id).unwrap();
    for _ in 0..8 {
        let corrupted = flip_bit_in_base64(&client_json).unwrap();
        let result = verify_assertion_signature(&public_key, &auth_data, &corrupted, &signature);
        assert!(!matches!(result, Ok(true)));
    }
}

#[test]
fn bit_flip_credential_id_misses_credential() {
    let (mut authenticator, credential_id, _, _, _) = registered_assertion();
    for _ in 0..8 {
        let corrupted = flip_bit_in_base64(&credential_id).unwrap();
        let result = authenticator.create_assertion(
            &corrupted,
            &generate_challenge(),
            "localhost",
            false,
        );
        assert!(result.is_err());
    }
}

#[test]
fn flip_bit_at_position_exact() {
    // "AQID" is the base64url text of the bytes [1, 2, 3].
    assert_eq!(base64_url::decode("AQID").unwrap(), vec![1u8, 2, 3]);
    // Flipping bit 0 of byte 0 turns 0x01 into 0x00.
    let flipped = flip_bit_at_position("AQID", 0, 0).unwrap();
    assert_eq!(base64_url::decode(&flipped).unwrap(), vec![0u8, 2, 3]);
    // Flipping bit 7 of byte 2 turns 0x03 into 0x83.
    let flipped = flip_bit_at_position("AQID", 2, 7).unwrap();
    assert_eq!(base64_url::decode(&flipped).unwrap(), vec![1u8, 2, 0x83]);

    assert_eq!(flip_bit_at_position("AQID", 3, 0).unwrap_err(), UtilsError::OutOfRange);
    assert_eq!(flip_bit_at_position("AQID", 0, 8).unwrap_err(), UtilsError::OutOfRange);
    assert_eq!(flip_bit_at_position("!!!", 0, 0).unwrap_err(), UtilsError::DecodeError);
}

#[test]
fn flip_bit_in_base64_changes_exactly_one_bit() {
    let original = base64_url::encode(&[0xaau8; 16]);
    for _ in 0..8 {
        let flipped = flip_bit_in_base64(&original).unwrap();
        let bytes = base64_url::decode(&flipped).unwrap();
        let differing_bits: u32 = bytes
            .iter()
            .map(|b| (b ^ 0xaau8).count_ones())
            .sum();
        assert_eq!(differing_bits, 1);
    }
}

#[test]
fn flip_bit_in_base64_empty_and_malformed() {
    // The empty byte string encodes to the empty text and comes back as is.
    assert_eq!(flip_bit_in_base64("").unwrap(), "");
    assert_eq!(flip_bit_in_base64("not base64!").unwrap_err(), UtilsError::DecodeError);
}
