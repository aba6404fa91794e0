//! Exact expected values for the byte and text formats: clientData JSON,
//! COSE keys, flags, hex and the display helpers.

use softauthn::authenticator::{ClientDataJson, SoftwareAuthenticator};
use softauthn::codec::{build_attestation_object, build_auth_data_assertion, build_cose_key, build_flags};
use softauthn::utils::{bytes_to_hex, format_string_diff, format_test_result, generate_challenge, generate_user_id, hex_to_bytes};
use softauthn::UtilsError;

#[test]
fn client_data_json_exact_text() {
    let mut authenticator = SoftwareAuthenticator::new();
    let challenge = generate_challenge();
    let user_id = generate_user_id();
    let (credential_id, _, _, client_data_b64) = authenticator
        .create_credential(&challenge, &user_id, "localhost", false)
        .unwrap();
    let client_data = String::from_utf8(base64_url::decode(&client_data_b64).unwrap()).unwrap();
    let expected = format!(
        "{{\"type\":\"webauthn.create\",\"challenge\":\"{}\",\"origin\":\"http://localhost\",\"crossOrigin\":false}}",
        base64_url::encode(&challenge)
    );
    assert_eq!(client_data, expected);

    // The same shape parses as JSON with the exact field names and values.
    let value: serde_json::Value = serde_json::from_str(&client_data).unwrap();
    assert_eq!(value["type"], "webauthn.create");
    assert_eq!(value["challenge"], base64_url::encode(&challenge));
    assert_eq!(value["origin"], "http://localhost");
    assert_eq!(value["crossOrigin"], false);

    let (_, _, _, get_client_b64, _, _) = authenticator
        .create_assertion(&credential_id, &challenge, "localhost", false)
        .unwrap();
    let get_client = String::from_utf8(base64_url::decode(&get_client_b64).unwrap()).unwrap();
    assert!(get_client.starts_with("{\"type\":\"webauthn.get\",\"challenge\":\""));
}

#[test]
fn client_data_struct_renders_json() {
    let client_data = ClientDataJson {
        typ: String::from("webauthn.get"),
        challenge: String::from("AQID"),
        origin: String::from("http://localhost"),
        cross_origin: true,
    };
    assert_eq!(
        client_data.to_json(),
        "{\"type\":\"webauthn.get\",\"challenge\":\"AQID\",\"origin\":\"http://localhost\",\"crossOrigin\":true}"
    );
}

#[test]
fn flags_byte_layout() {
    assert_eq!(build_flags(false, false, false, false), 0x00);
    assert_eq!(build_flags(true, false, false, false), 0x01);
    assert_eq!(build_flags(false, true, false, false), 0x04);
    assert_eq!(build_flags(false, false, true, false), 0x40);
    assert_eq!(build_flags(false, false, false, true), 0x80);
    assert_eq!(build_flags(true, true, true, true), 0xc5);
    assert_eq!(build_flags(true, false, true, false), 0x41);
}

#[test]
fn cose_key_exact_bytes() {
    let x = [0x11u8; 32];
    let y = [0x22u8; 32];
    let cose = build_cose_key(&x, &y);
    assert_eq!(cose.len(), 77);
    let mut expected = vec![0xa5u8, 0x01, 0x02, 0x03, 0x26, 0x20, 0x01, 0x21, 0x58, 0x20];
    expected.extend_from_slice(&x);
    expected.extend_from_slice(&[0x22, 0x58, 0x20]);
    expected.extend_from_slice(&y);
    assert_eq!(cose, expected);
}

#[test]
fn assertion_auth_data_exact_bytes() {
    let rp_hash = [0x33u8; 32];
    let auth_data = build_auth_data_assertion(&rp_hash, 0x01, 0x01020304);
    assert_eq!(auth_data.len(), 37);
    assert_eq!(&auth_data[..32], &rp_hash);
    assert_eq!(auth_data[32], 0x01);
    assert_eq!(&auth_data[33..37], &[0x01, 0x02, 0x03, 0x04]);
}

#[test]
fn attestation_object_wraps_auth_data() {
    let auth_data: Vec<u8> = (0u8..37).collect();
    let attestation = build_attestation_object(&auth_data);
    let mut expected: Vec<u8> = vec![0xa3];
    expected.extend_from_slice(&[0x63, b'f', b'm', b't']);
    expected.extend_from_slice(&[0x64, b'n', b'o', b'n', b'e']);
    expected.extend_from_slice(&[0x67, b'a', b't', b't', b'S', b't', b'm', b't']);
    expected.push(0xa0);
    expected.extend_from_slice(&[0x68, b'a', b'u', b't', b'h', b'D', b'a', b't', b'a']);
    expected.extend_from_slice(&[0x58, 37]);
    expected.extend_from_slice(&auth_data);
    assert_eq!(attestation, expected);
}

#[test]
fn hex_conversion_roundtrip() {
    assert_eq!(bytes_to_hex(&[0xbe, 0xef]), "beef");
    assert_eq!(bytes_to_hex(&[]), "");
    assert_eq!(bytes_to_hex(&[0x00, 0x0a, 0xff]), "000aff");
    // Agrees with the hex crate's encoding.
    let data = generate_user_id();
    assert_eq!(bytes_to_hex(&data), hex::encode(&data));

    assert_eq!(hex_to_bytes("beef").unwrap(), vec![0xbe, 0xef]);
    assert_eq!(hex_to_bytes("BEEF").unwrap(), vec![0xbe, 0xef]);
    assert_eq!(hex_to_bytes("").unwrap(), Vec::<u8>::new());
    assert_eq!(hex_to_bytes("abc").unwrap_err(), UtilsError::DecodeError);
    assert_eq!(hex_to_bytes("zz").unwrap_err(), UtilsError::DecodeError);
    assert_eq!(hex_to_bytes(&bytes_to_hex(&data)).unwrap(), data);
}

#[test]
fn format_test_result_exact() {
    assert_eq!(
        format_test_result("it works", true),
        "\x1b[32m\u{2713} PASS\x1b[0m: it works"
    );
    assert_eq!(
        format_test_result("it broke", false),
        "\x1b[31m\u{2717} FAIL\x1b[0m: it broke"
    );
}

#[test]
fn format_string_diff_exact() {
    let report = format_string_diff("field", "abcd", "abXd");
    assert_eq!(
        report,
        "Comparing field:\n    Original:  abcd\n    Corrupted: abXd\n    Diff:      ..^."
    );
    // Unequal lengths mark every position beyond the shorter string.
    let report = format_string_diff("field", "ab", "abcd");
    assert_eq!(
        report,
        "Comparing field:\n    Original:  ab\n    Corrupted: abcd\n    Diff:      ..^^"
    );
}
