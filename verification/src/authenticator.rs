//! The software authenticator: a growing set of ECDSA P-256 credentials and
//! a signature counter, with registration (`create_credential`) and
//! authentication (`create_assertion`).

use vstd::prelude::*;
use vstd::seq_lib::*;
use vstd::slice::slice_to_vec;
use vstd::string::*;
use vstd::utf8::*;

use crate::b64::{b64url_chars, b64url_decode, b64url_encode, b64url_parse};
use crate::codec::{
    attestation_object_bytes, auth_data_assertion, auth_data_registration,
    build_attestation_object, build_auth_data_assertion, build_auth_data_registration,
    build_client_data_json, build_cose_key, build_flags, client_data_json_chars, cose_key_bytes,
    flags_byte, json_verbatim, lemma_b64url_text_json_verbatim,
};
use crate::crypto::{
    p256_der_sig_ok, p256_generate, p256_point_ok, p256_pub_point, p256_pub_x, p256_pub_y,
    p256_scalar_ok, p256_sig_der, p256_sign_der, p256_sig_verifies, sha256_bytes, sha256_of,
};
use crate::verification::PublicKey;
use crate::AuthenticatorError;

verus! {

/// The mathematical model of one stored credential.
pub struct CredentialModel {
    /// The authenticator-generated 64-byte credential ID.
    pub id: Seq<u8>,
    /// The ECDSA P-256 secret scalar.
    pub scalar: Seq<u8>,
    /// The x coordinate of the public key.
    pub pub_x: Seq<u8>,
    /// The y coordinate of the public key.
    pub pub_y: Seq<u8>,
    /// The user ID the credential was minted for.
    pub user_id: Seq<u8>,
}

/// The mathematical model of an authenticator instance: its credentials in
/// creation order, and its signature counter.
pub struct AuthenticatorModel {
    pub credentials: Seq<CredentialModel>,
    pub counter: u32,
}

/// The index of the first credential with the given ID, if any.
pub open spec fn find_credential(creds: Seq<CredentialModel>, id: Seq<u8>) -> Option<int>
    decreases creds.len(),
{
    if creds.len() == 0 {
        None
    } else if creds[0].id == id {
        Some(0)
    } else {
        match find_credential(creds.drop_first(), id) {
            Some(i) => Some(i + 1),
            None => None,
        }
    }
}

/// Law: an ID that some stored credential carries is always found, and the
/// credential found carries that ID.
pub proof fn lemma_find_credential_exists(creds: Seq<CredentialModel>, id: Seq<u8>, i: int)
    requires
        0 <= i < creds.len(),
        creds[i].id == id,
    ensures
        find_credential(creds, id) is Some,
        ({
            let k = find_credential(creds, id)->0;
            0 <= k < creds.len() && creds[k].id == id
        }),
    decreases i,
{
    if creds[0].id != id {
        lemma_find_credential_exists(creds.drop_first(), id, i - 1);
    }
}

proof fn lemma_find_credential_first(creds: Seq<CredentialModel>, id: Seq<u8>, i: int)
    requires
        0 <= i < creds.len(),
        creds[i].id == id,
        forall|j: int| 0 <= j < i ==> creds[j].id != id,
    ensures
        find_credential(creds, id) == Some(i),
    decreases i,
{
    if i > 0 {
        assert(forall|j: int| 0 <= j < i - 1 ==> creds.drop_first()[j].id != id);
        lemma_find_credential_first(creds.drop_first(), id, i - 1);
    }
}

proof fn lemma_find_credential_none(creds: Seq<CredentialModel>, id: Seq<u8>)
    requires
        forall|j: int| 0 <= j < creds.len() ==> creds[j].id != id,
    ensures
        find_credential(creds, id) is None,
    decreases creds.len(),
{
    if creds.len() > 0 {
        assert(forall|j: int| 0 <= j < creds.drop_first().len() ==> creds.drop_first()[j].id
            != id);
        lemma_find_credential_none(creds.drop_first(), id);
    }
}

/// One credential as stored: ID, key material and owner.
struct StoredCredential {
    credential_id: Vec<u8>,
    private_scalar: Vec<u8>,
    public_x: Vec<u8>,
    public_y: Vec<u8>,
    user_id: Vec<u8>,
}

impl StoredCredential {
    spec fn model(self) -> CredentialModel {
        CredentialModel {
            id: self.credential_id@,
            scalar: self.private_scalar@,
            pub_x: self.public_x@,
            pub_y: self.public_y@,
            user_id: self.user_id@,
        }
    }

    #[verifier::type_invariant]
    spec fn wf(self) -> bool {
        &&& self.credential_id@.len() == 64
        &&& self.private_scalar@.len() == 32
        &&& p256_scalar_ok(self.private_scalar@)
        &&& p256_pub_point(self.private_scalar@).len() == 65
        &&& self.public_x@ == p256_pub_x(self.private_scalar@)
        &&& self.public_y@ == p256_pub_y(self.private_scalar@)
        &&& p256_point_ok(self.public_x@, self.public_y@)
    }
}

/// A software emulation of one physical authenticator device.
pub struct SoftwareAuthenticator {
    credentials: Vec<StoredCredential>,
    counter: u32,
}

impl View for SoftwareAuthenticator {
    type V = AuthenticatorModel;

    closed spec fn view(&self) -> AuthenticatorModel {
        AuthenticatorModel {
            credentials: self.credentials@.map_values(|c: StoredCredential| c.model()),
            counter: self.counter,
        }
    }
}

/// The clientData JSON text of a registration: type `webauthn.create`, the
/// base64url challenge, the fixed test origin, `crossOrigin` false.
pub open spec fn registration_client_data(challenge: Seq<u8>) -> Seq<char> {
    client_data_json_chars("webauthn.create"@, b64url_chars(challenge), "http://localhost"@, false)
}

/// The clientData JSON text of an authentication: type `webauthn.get`.
pub open spec fn assertion_client_data(challenge: Seq<u8>) -> Seq<char> {
    client_data_json_chars("webauthn.get"@, b64url_chars(challenge), "http://localhost"@, false)
}

/// The registration-form authenticator data of a credential: rpIdHash,
/// flags (user present, attested data included), the counter, the zero
/// AAGUID, and the credential ID with its COSE public key.
pub open spec fn registration_auth_data(
    rp_id: Seq<char>,
    uv: bool,
    counter: u32,
    cred: CredentialModel,
) -> Seq<u8> {
    auth_data_registration(
        sha256_of(encode_utf8(rp_id)),
        flags_byte(true, uv, true, false),
        counter,
        cred.id,
        cose_key_bytes(cred.pub_x, cred.pub_y),
    )
}

/// The authentication-form authenticator data: rpIdHash, flags (user
/// present, no attested data), the counter.
pub open spec fn assertion_auth_data_of(rp_id: Seq<char>, uv: bool, counter: u32) -> Seq<u8> {
    auth_data_assertion(sha256_of(encode_utf8(rp_id)), flags_byte(true, uv, false, false), counter)
}

/// The byte string an assertion signs: the authenticator data followed by
/// the SHA-256 digest of the clientData JSON.
pub open spec fn assertion_signed_payload(
    rp_id: Seq<char>,
    uv: bool,
    counter: u32,
    challenge: Seq<u8>,
) -> Seq<u8> {
    assertion_auth_data_of(rp_id, uv, counter) + sha256_of(
        encode_utf8(assertion_client_data(challenge)),
    )
}

/// Byte-for-byte equality of two byte strings.
fn bytes_eq(a: &[u8], b: &[u8]) -> (r: bool)
    ensures
        r == (a@ == b@),
{
    if a.len() != b.len() {
        return false;
    }
    let mut i: usize = 0;
    while i < a.len()
        invariant
            i <= a@.len(),
            a@.len() == b@.len(),
            forall|j: int| 0 <= j < i ==> a@[j] == b@[j],
        decreases a@.len() - i,
    {
        if a[i] != b[i] {
            return false;
        }
        i = i + 1;
    }
    proof {
        assert(a@ =~= b@);
    }
    true
}

fn find_credential_index(credentials: &Vec<StoredCredential>, id: &[u8]) -> (r: Option<usize>)
    ensures
        match r {
            Some(i) => i < credentials@.len() && credentials@[i as int].model().id == id@ && forall|
                j: int,
            | 0 <= j < i ==> credentials@[j].model().id != id@,
            None => forall|j: int| 0 <= j < credentials@.len() ==> credentials@[j].model().id != id@,
        },
{
    let mut i: usize = 0;
    while i < credentials.len()
        invariant
            i <= credentials@.len(),
            forall|j: int| 0 <= j < i ==> credentials@[j].model().id != id@,
        decreases credentials@.len() - i,
    {
        if bytes_eq(credentials[i].credential_id.as_slice(), id) {
            return Some(i);
        }
        i = i + 1;
    }
    None
}

impl SoftwareAuthenticator {
    /// A fresh authenticator with no credentials and counter zero.
    pub fn new() -> (r: SoftwareAuthenticator)
        ensures
            r@.credentials.len() == 0,
            r@.counter == 0,
    {
        SoftwareAuthenticator { credentials: Vec::new(), counter: 0 }
    }

    /// The current signature counter.
    pub fn signature_counter(&self) -> (r: u32)
        ensures
            r == self@.counter,
    {
        self.counter
    }

    /// Registration: mints a fresh random key pair and 64-byte credential
    /// ID, stores the credential (never overwriting an earlier one), advances
    /// the counter by exactly 1, and returns the four wire values: the
    /// base64url credential ID, the literal `public-key`, the base64url CBOR
    /// attestation object, and the base64url clientData JSON.
    pub fn create_credential(
        &mut self,
        challenge: &[u8],
        user_id: &[u8],
        relying_party_id: &str,
        user_verification: bool,
    ) -> (r: Result<(String, String, String, String), AuthenticatorError>)
        requires
            old(self)@.counter < u32::MAX,
        ensures
            r is Ok,
            final(self)@.counter == old(self)@.counter + 1,
            final(self)@.credentials.len() == old(self)@.credentials.len() + 1,
            final(self)@.credentials.drop_last() == old(self)@.credentials,
            ({
                let cred = final(self)@.credentials.last();
                let out = r->Ok_0;
                let counter_after = (old(self)@.counter + 1) as u32;
                let attestation = attestation_object_bytes(
                    registration_auth_data(
                        relying_party_id@,
                        user_verification,
                        counter_after,
                        cred,
                    ),
                );
                let client_data = encode_utf8(registration_client_data(challenge@));
                &&& cred.id.len() == 64
                &&& cred.user_id == user_id@
                &&& cred.scalar.len() == 32
                &&& cred.pub_x.len() == 32
                &&& cred.pub_y.len() == 32
                &&& p256_scalar_ok(cred.scalar)
                &&& cred.pub_x == p256_pub_x(cred.scalar)
                &&& cred.pub_y == p256_pub_y(cred.scalar)
                &&& p256_point_ok(cred.pub_x, cred.pub_y)
                &&& out.0@ == b64url_chars(cred.id)
                &&& b64url_parse(out.0@) == Some(cred.id)
                &&& out.1@ == "public-key"@
                &&& out.2@ == b64url_chars(attestation)
                &&& b64url_parse(out.2@) == Some(attestation)
                &&& out.3@ == b64url_chars(client_data)
                &&& b64url_parse(out.3@) == Some(client_data)
            }),
    {
        let (scalar, x, y) = p256_generate();
        let credential_id = crate::utils::generate_random_bytes(64);
        let credential_id_b64 = b64url_encode(credential_id.as_slice());

        let challenge_b64 = b64url_encode(challenge);
        proof {
            reveal_strlit("webauthn.create");
            reveal_strlit("http://localhost");
            assert(json_verbatim("webauthn.create"@));
            assert(json_verbatim("http://localhost"@));
            lemma_b64url_text_json_verbatim(challenge_b64@);
        }
        let client_data_json = build_client_data_json(
            "webauthn.create",
            challenge_b64.as_str(),
            "http://localhost",
            false,
        );
        let client_data_b64 = b64url_encode(client_data_json.as_str().as_bytes());

        let rp_id_hash = sha256_bytes(relying_party_id.as_bytes());
        let flags = build_flags(true, user_verification, true, false);
        self.counter = self.counter + 1;

        let cose_key = build_cose_key(x.as_slice(), y.as_slice());
        let auth_data = build_auth_data_registration(
            rp_id_hash.as_slice(),
            flags,
            self.counter,
            credential_id.as_slice(),
            cose_key.as_slice(),
        );
        let attestation_object = build_attestation_object(&auth_data);
        let attestation_b64 = b64url_encode(attestation_object.as_slice());

        let cred = StoredCredential {
            credential_id,
            private_scalar: scalar,
            public_x: x,
            public_y: y,
            user_id: slice_to_vec(user_id),
        };
        let ghost cred_model = cred.model();
        self.credentials.push(cred);
        proof {
            assert(self@.credentials =~= old(self)@.credentials.push(cred_model));
            assert(self@.credentials.drop_last() =~= old(self)@.credentials);
        }
        Ok((
            credential_id_b64,
            String::from_str("public-key"),
            attestation_b64,
            client_data_b64,
        ))
    }

    /// Authentication: looks the credential up by exact byte equality of the
    /// decoded ID, advances the counter by exactly 1, and returns the six
    /// wire values: the credential ID as supplied, the literal `public-key`,
    /// the base64url authenticator data (short form, no attested data), the
    /// base64url clientData JSON, the base64url DER signature over
    /// authenticatorData || SHA-256(clientDataJSON), and no user handle.
    ///
    /// Fails with `DecodeError` exactly when the supplied ID is not
    /// base64url, and with `CredentialNotFound` exactly when the decoded ID
    /// matches no stored credential; the state is unchanged on failure.
    pub fn create_assertion(
        &mut self,
        credential_id: &str,
        challenge: &[u8],
        relying_party_id: &str,
        user_verification: bool,
    ) -> (r: Result<
        (String, String, String, String, String, Option<String>),
        AuthenticatorError,
    >)
        requires
            old(self)@.counter < u32::MAX,
        ensures
            ({
                let parsed = b64url_parse(credential_id@);
                &&& (r is Ok <==> parsed is Some && find_credential(
                    old(self)@.credentials,
                    parsed->0,
                ) is Some)
                &&& match r {
                    Ok(out) => ({
                        let id_bytes = parsed->0;
                        let cred =
                            old(self)@.credentials[find_credential(
                            old(self)@.credentials,
                            id_bytes,
                        )->0];
                        let counter_after = (old(self)@.counter + 1) as u32;
                        let ad = assertion_auth_data_of(
                            relying_party_id@,
                            user_verification,
                            counter_after,
                        );
                        let cdj = encode_utf8(assertion_client_data(challenge@));
                        let payload = assertion_signed_payload(
                            relying_party_id@,
                            user_verification,
                            counter_after,
                            challenge@,
                        );
                        let sig = p256_sig_der(cred.scalar, payload);
                        &&& cred.id == id_bytes
                        &&& final(self)@.credentials == old(self)@.credentials
                        &&& final(self)@.counter == old(self)@.counter + 1
                        &&& out.0@ == credential_id@
                        &&& out.1@ == "public-key"@
                        &&& out.2@ == b64url_chars(ad)
                        &&& b64url_parse(out.2@) == Some(ad)
                        &&& out.3@ == b64url_chars(cdj)
                        &&& b64url_parse(out.3@) == Some(cdj)
                        &&& out.4@ == b64url_chars(sig)
                        &&& b64url_parse(out.4@) == Some(sig)
                        &&& p256_der_sig_ok(sig)
                        &&& p256_point_ok(cred.pub_x, cred.pub_y)
                        &&& p256_sig_verifies(cred.pub_x, cred.pub_y, payload, sig)
                        &&& out.5 is None
                    }),
                    Err(e) => {
                        &&& final(self)@ == old(self)@
                        &&& (e == AuthenticatorError::DecodeError <==> parsed is None)
                        &&& (e == AuthenticatorError::CredentialNotFound <==> parsed is Some
                            && find_credential(old(self)@.credentials, parsed->0) is None)
                    },
                }
            }),
    {
        let decoded = match b64url_decode(credential_id) {
            Some(v) => v,
            None => {
                return Err(AuthenticatorError::DecodeError);
            },
        };
        let cred_idx = match find_credential_index(&self.credentials, decoded.as_slice()) {
            Some(i) => i,
            None => {
                proof {
                    lemma_find_credential_none(self@.credentials, decoded@);
                }
                return Err(AuthenticatorError::CredentialNotFound);
            },
        };
        proof {
            lemma_find_credential_first(self@.credentials, decoded@, cred_idx as int);
        }

        let challenge_b64 = b64url_encode(challenge);
        proof {
            reveal_strlit("webauthn.get");
            reveal_strlit("http://localhost");
            assert(json_verbatim("webauthn.get"@));
            assert(json_verbatim("http://localhost"@));
            lemma_b64url_text_json_verbatim(challenge_b64@);
        }
        let client_data_json = build_client_data_json(
            "webauthn.get",
            challenge_b64.as_str(),
            "http://localhost",
            false,
        );
        let client_data_hash = sha256_bytes(client_data_json.as_str().as_bytes());
        let client_data_b64 = b64url_encode(client_data_json.as_str().as_bytes());

        let rp_id_hash = sha256_bytes(relying_party_id.as_bytes());
        let flags = build_flags(true, user_verification, false, false);
        self.counter = self.counter + 1;

        let auth_data = build_auth_data_assertion(rp_id_hash.as_slice(), flags, self.counter);
        let mut signature_data: Vec<u8> = Vec::new();
        signature_data.extend_from_slice(auth_data.as_slice());
        signature_data.extend_from_slice(client_data_hash.as_slice());
        proof {
            assert(signature_data@ =~= assertion_signed_payload(
                relying_party_id@,
                user_verification,
                self.counter,
                challenge@,
            ));
        }

        let cred = &self.credentials[cred_idx];
        proof {
            use_type_invariant(cred);
        }
        let signature = p256_sign_der(cred.private_scalar.as_slice(), signature_data.as_slice());
        let signature_b64 = b64url_encode(signature.as_slice());
        let auth_data_b64 = b64url_encode(auth_data.as_slice());

        Ok((
            String::from_str(credential_id),
            String::from_str("public-key"),
            auth_data_b64,
            client_data_b64,
            signature_b64,
            None,
        ))
    }

    /// The base64url IDs of the stored credentials, in creation order.
    pub fn get_stored_credential_ids(&self) -> (r: Vec<String>)
        ensures
            r@.len() == self@.credentials.len(),
            forall|i: int|
                0 <= i < r@.len() ==> r@[i]@ == b64url_chars(#[trigger] self@.credentials[i].id),
    {
        let mut out: Vec<String> = Vec::new();
        let mut i: usize = 0;
        while i < self.credentials.len()
            invariant
                i <= self@.credentials.len(),
                self@.credentials.len() == self.credentials@.len(),
                out@.len() == i,
                forall|j: int|
                    0 <= j < i ==> out@[j]@ == b64url_chars(#[trigger] self@.credentials[j].id),
            decreases self.credentials@.len() - i,
        {
            out.push(b64url_encode(self.credentials[i].credential_id.as_slice()));
            i = i + 1;
        }
        out
    }

    /// The public key stored for a base64url credential ID, if the ID
    /// decodes and matches a stored credential.
    pub fn verifying_key(&self, credential_id: &str) -> (r: Option<PublicKey>)
        ensures
            ({
                let parsed = b64url_parse(credential_id@);
                &&& (r is Some <==> parsed is Some && find_credential(
                    self@.credentials,
                    parsed->0,
                ) is Some)
                &&& match r {
                    Some(pk) => ({
                        let cred =
                            self@.credentials[find_credential(self@.credentials, parsed->0)->0];
                        &&& pk.x@ == cred.pub_x
                        &&& pk.y@ == cred.pub_y
                        &&& pk.x@.len() == 32
                        &&& pk.y@.len() == 32
                        &&& p256_point_ok(pk.x@, pk.y@)
                    }),
                    None => true,
                }
            }),
    {
        let decoded = match b64url_decode(credential_id) {
            Some(v) => v,
            None => {
                return None;
            },
        };
        let cred_idx = match find_credential_index(&self.credentials, decoded.as_slice()) {
            Some(i) => i,
            None => {
                proof {
                    lemma_find_credential_none(self@.credentials, decoded@);
                }
                return None;
            },
        };
        proof {
            lemma_find_credential_first(self@.credentials, decoded@, cred_idx as int);
        }
        let cred = &self.credentials[cred_idx];
        proof {
            use_type_invariant(cred);
        }
        Some(
            PublicKey {
                x: slice_to_vec(cred.public_x.as_slice()),
                y: slice_to_vec(cred.public_y.as_slice()),
            },
        )
    }
}

/// The client data of a single WebAuthn ceremony, with the wire field names
/// `type`, `challenge`, `origin`, `crossOrigin`.
pub struct ClientDataJson {
    pub typ: String,
    pub challenge: String,
    pub origin: String,
    pub cross_origin: bool,
}

impl ClientDataJson {
    /// The canonical JSON text of this client data. The field values must
    /// need no JSON escaping — the values of this wire format (the two fixed
    /// ceremony types, base64url text, the fixed test origin) never do.
    pub fn to_json(&self) -> (r: String)
        requires
            json_verbatim(self.typ@),
            json_verbatim(self.challenge@),
            json_verbatim(self.origin@),
        ensures
            r@ == client_data_json_chars(self.typ@, self.challenge@, self.origin@,
            self.cross_origin),
    {
        build_client_data_json(
            self.typ.as_str(),
            self.challenge.as_str(),
            self.origin.as_str(),
            self.cross_origin,
        )
    }
}

} // verus!
