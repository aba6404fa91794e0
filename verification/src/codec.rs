//! Binary codec: the authenticator-data byte layout, the COSE public-key map,
//! the CBOR attestation object, and the clientData JSON text.
//!
//! Everything here is pure construction of bytes and characters; each builder
//! returns exactly the sequence its spec function describes.

use vstd::prelude::*;
use vstd::string::*;

use crate::b64::b64url_alphabet_char;

verus! {

/// Big-endian bytes of a `u16`.
pub open spec fn be16(n: u16) -> Seq<u8> {
    seq![(n / 256) as u8, (n % 256) as u8]
}

/// Big-endian bytes of a `u32`.
pub open spec fn be32(n: u32) -> Seq<u8> {
    seq![
        (n / 0x1000000) as u8,
        ((n / 0x10000) % 256) as u8,
        ((n / 256) % 256) as u8,
        (n % 256) as u8,
    ]
}

pub fn be16_bytes(n: u16) -> (r: Vec<u8>)
    ensures
        r@ == be16(n),
{
    let mut v: Vec<u8> = Vec::new();
    v.push((n / 256) as u8);
    v.push((n % 256) as u8);
    proof {
        assert(v@ =~= be16(n));
    }
    v
}

pub fn be32_bytes(n: u32) -> (r: Vec<u8>)
    ensures
        r@ == be32(n),
{
    let mut v: Vec<u8> = Vec::new();
    v.push((n / 0x1000000) as u8);
    v.push(((n / 0x10000) % 256) as u8);
    v.push(((n / 256) % 256) as u8);
    v.push((n % 256) as u8);
    proof {
        assert(v@ =~= be32(n));
    }
    v
}

/// The authenticator-data flags byte: bit 0 = user present, bit 2 = user
/// verified, bit 6 = attested credential data included, bit 7 = extension
/// data included; all other bits zero.
pub open spec fn flags_byte(up: bool, uv: bool, at: bool, ed: bool) -> u8 {
    ((if up { 0x01int } else { 0int }) + (if uv { 0x04int } else { 0int }) + (if at {
        0x40int
    } else {
        0int
    }) + (if ed { 0x80int } else { 0int })) as u8
}

pub fn build_flags(up: bool, uv: bool, at: bool, ed: bool) -> (r: u8)
    ensures
        r == flags_byte(up, uv, at, ed),
{
    let mut flags: u8 = 0;
    if up {
        flags = flags + 0x01;
    }
    if uv {
        flags = flags + 0x04;
    }
    if at {
        flags = flags + 0x40;
    }
    if ed {
        flags = flags + 0x80;
    }
    flags
}

/// CBOR initial bytes for major type `major` carrying length/value argument
/// `n`, in the minimal-length (canonical) form, for arguments below 65536.
pub open spec fn cbor_header(major: u8, n: nat) -> Seq<u8>
    recommends
        major < 8,
        n < 0x10000,
{
    if n < 24 {
        seq![((major as int) * 32 + n as int) as u8]
    } else if n < 0x100 {
        seq![((major as int) * 32 + 24) as u8, n as u8]
    } else {
        seq![((major as int) * 32 + 25) as u8] + be16(n as u16)
    }
}

pub fn push_cbor_header(v: &mut Vec<u8>, major: u8, n: usize)
    requires
        major < 8,
        n < 0x10000,
    ensures
        final(v)@ == old(v)@ + cbor_header(major, n as nat),
{
    if n < 24 {
        v.push(major * 32 + (n as u8));
    } else if n < 0x100 {
        v.push(major * 32 + 24);
        v.push(n as u8);
    } else {
        v.push(major * 32 + 25);
        let mut tail = be16_bytes(n as u16);
        v.append(&mut tail);
    }
    proof {
        assert(v@ =~= old(v)@ + cbor_header(major, n as nat));
    }
}

/// CBOR bytes of the COSE_Key map of a P-256 public key, with its five pairs
/// in this canonical order: `1` (kty) -> `2` (EC2), `3` (alg) -> `-7` (ES256),
/// `-1` (crv) -> `1` (P-256), `-2` -> the x coordinate, `-3` -> the y
/// coordinate.
pub open spec fn cose_key_bytes(x: Seq<u8>, y: Seq<u8>) -> Seq<u8>
    recommends
        x.len() == 32,
        y.len() == 32,
{
    seq![
        0xa5u8,  // map of 5 pairs
        0x01u8, 0x02u8,  // 1 (kty) -> 2 (EC2)
        0x03u8, 0x26u8,  // 3 (alg) -> -7 (ES256)
        0x20u8, 0x01u8,  // -1 (crv) -> 1 (P-256)
        0x21u8, 0x58u8, 0x20u8,  // -2 -> 32-byte string header
    ] + x + seq![
        0x22u8, 0x58u8, 0x20u8,  // -3 -> 32-byte string header
    ] + y
}

pub fn build_cose_key(x: &[u8], y: &[u8]) -> (r: Vec<u8>)
    requires
        x@.len() == 32,
        y@.len() == 32,
    ensures
        r@ == cose_key_bytes(x@, y@),
{
    let mut v: Vec<u8> = Vec::new();
    v.push(0xa5);
    v.push(0x01);
    v.push(0x02);
    v.push(0x03);
    v.push(0x26);
    v.push(0x20);
    v.push(0x01);
    v.push(0x21);
    v.push(0x58);
    v.push(0x20);
    v.extend_from_slice(x);
    v.push(0x22);
    v.push(0x58);
    v.push(0x20);
    v.extend_from_slice(y);
    proof {
        assert(v@ =~= cose_key_bytes(x@, y@));
    }
    v
}

/// Where the coordinates sit inside the COSE_Key bytes.
pub proof fn lemma_cose_key_layout(x: Seq<u8>, y: Seq<u8>)
    requires
        x.len() == 32,
        y.len() == 32,
    ensures
        cose_key_bytes(x, y).len() == 77,
        cose_key_bytes(x, y).subrange(10, 42) == x,
        cose_key_bytes(x, y).subrange(45, 77) == y,
{
    assert(cose_key_bytes(x, y).subrange(10, 42) =~= x);
    assert(cose_key_bytes(x, y).subrange(45, 77) =~= y);
}

/// CBOR bytes of the attestation object, a map of exactly three text keys:
/// `"fmt"` -> `"none"`, `"attStmt"` -> `{}`, `"authData"` -> the
/// authenticator-data bytes.
pub open spec fn attestation_object_bytes(auth_data: Seq<u8>) -> Seq<u8>
    recommends
        auth_data.len() < 0x10000,
{
    seq![
        0xa3u8,  // map of 3 pairs
        0x63u8, 0x66u8, 0x6du8, 0x74u8,  // text "fmt"
        0x64u8, 0x6eu8, 0x6fu8, 0x6eu8, 0x65u8,  // text "none"
        0x67u8, 0x61u8, 0x74u8, 0x74u8, 0x53u8, 0x74u8, 0x6du8, 0x74u8,  // text "attStmt"
        0xa0u8,  // empty map
        0x68u8, 0x61u8, 0x75u8, 0x74u8, 0x68u8, 0x44u8, 0x61u8, 0x74u8, 0x61u8,  // text "authData"
    ] + cbor_header(2, auth_data.len()) + auth_data
}

pub fn build_attestation_object(auth_data: &Vec<u8>) -> (r: Vec<u8>)
    requires
        auth_data@.len() < 0x10000,
    ensures
        r@ == attestation_object_bytes(auth_data@),
{
    let mut v: Vec<u8> = Vec::new();
    v.push(0xa3);
    v.push(0x63);
    v.push(0x66);
    v.push(0x6d);
    v.push(0x74);
    v.push(0x64);
    v.push(0x6e);
    v.push(0x6f);
    v.push(0x6e);
    v.push(0x65);
    v.push(0x67);
    v.push(0x61);
    v.push(0x74);
    v.push(0x74);
    v.push(0x53);
    v.push(0x74);
    v.push(0x6d);
    v.push(0x74);
    v.push(0xa0);
    v.push(0x68);
    v.push(0x61);
    v.push(0x75);
    v.push(0x74);
    v.push(0x68);
    v.push(0x44);
    v.push(0x61);
    v.push(0x74);
    v.push(0x61);
    push_cbor_header(&mut v, 2, auth_data.len());
    v.extend_from_slice(auth_data.as_slice());
    proof {
        assert(v@ =~= attestation_object_bytes(auth_data@));
    }
    v
}

/// Law: the attestation object embeds the authenticator data unchanged; for
/// the byte lengths this library produces, the CBOR wrapping is a fixed
/// 30-byte prefix.
pub proof fn lemma_attestation_object_layout(auth_data: Seq<u8>)
    requires
        24 <= auth_data.len() < 0x100,
    ensures
        attestation_object_bytes(auth_data).len() == 30 + auth_data.len(),
        attestation_object_bytes(auth_data).subrange(
            30,
            attestation_object_bytes(auth_data).len() as int,
        ) == auth_data,
{
    assert(attestation_object_bytes(auth_data).subrange(
        30,
        attestation_object_bytes(auth_data).len() as int,
    ) =~= auth_data);
}

/// A run of `n` zero bytes.
pub open spec fn zero_bytes(n: nat) -> Seq<u8> {
    Seq::new(n, |i: int| 0u8)
}

/// Registration-form authenticator data: rpIdHash, flags, counter, the
/// all-zero AAGUID, the big-endian credential-ID length, the credential ID
/// and its COSE public key.
pub open spec fn auth_data_registration(
    rp_id_hash: Seq<u8>,
    flags: u8,
    counter: u32,
    credential_id: Seq<u8>,
    cose_key: Seq<u8>,
) -> Seq<u8>
    recommends
        rp_id_hash.len() == 32,
        credential_id.len() < 0x10000,
{
    rp_id_hash + seq![flags] + be32(counter) + zero_bytes(16) + be16(credential_id.len() as u16)
        + credential_id + cose_key
}

/// Authentication-form authenticator data: only rpIdHash, flags and counter.
pub open spec fn auth_data_assertion(rp_id_hash: Seq<u8>, flags: u8, counter: u32) -> Seq<u8>
    recommends
        rp_id_hash.len() == 32,
{
    rp_id_hash + seq![flags] + be32(counter)
}

pub fn build_auth_data_assertion(rp_id_hash: &[u8], flags: u8, counter: u32) -> (r: Vec<u8>)
    requires
        rp_id_hash@.len() == 32,
    ensures
        r@ == auth_data_assertion(rp_id_hash@, flags, counter),
        r@.len() == 37,
{
    let mut v: Vec<u8> = Vec::new();
    v.extend_from_slice(rp_id_hash);
    v.push(flags);
    let mut counter_bytes = be32_bytes(counter);
    v.append(&mut counter_bytes);
    proof {
        assert(v@ =~= auth_data_assertion(rp_id_hash@, flags, counter));
    }
    v
}

pub fn build_auth_data_registration(
    rp_id_hash: &[u8],
    flags: u8,
    counter: u32,
    credential_id: &[u8],
    cose_key: &[u8],
) -> (r: Vec<u8>)
    requires
        rp_id_hash@.len() == 32,
        credential_id@.len() < 0x10000,
    ensures
        r@ == auth_data_registration(rp_id_hash@, flags, counter, credential_id@, cose_key@),
{
    let mut v: Vec<u8> = Vec::new();
    v.extend_from_slice(rp_id_hash);
    v.push(flags);
    let mut counter_bytes = be32_bytes(counter);
    v.append(&mut counter_bytes);
    let mut i: usize = 0;
    while i < 16
        invariant
            v@ == auth_data_registration(rp_id_hash@, flags, counter, credential_id@, cose_key@)
                .subrange(0, 37) + zero_bytes(i as nat),
            i <= 16,
        decreases 16 - i,
    {
        v.push(0);
        proof {
            assert(v@ =~= auth_data_registration(
                rp_id_hash@,
                flags,
                counter,
                credential_id@,
                cose_key@,
            ).subrange(0, 37) + zero_bytes((i + 1) as nat));
        }
        i = i + 1;
    }
    let mut len_bytes = be16_bytes(credential_id.len() as u16);
    v.append(&mut len_bytes);
    v.extend_from_slice(credential_id);
    v.extend_from_slice(cose_key);
    proof {
        assert(v@ =~= auth_data_registration(
            rp_id_hash@,
            flags,
            counter,
            credential_id@,
            cose_key@,
        ));
    }
    v
}

/// Law: in registration-form authenticator data with a 64-byte credential ID,
/// every field sits at its fixed offset; in particular the first 32 bytes are
/// the relying-party-ID hash, and the credential ID and COSE key follow the
/// 16-byte zero AAGUID and the 2-byte length.
#[verifier::rlimit(50)]
pub proof fn lemma_registration_auth_data_layout(
    h: Seq<u8>,
    flags: u8,
    counter: u32,
    credential_id: Seq<u8>,
    cose_key: Seq<u8>,
)
    requires
        h.len() == 32,
        credential_id.len() == 64,
    ensures
        ({
            let ad = auth_data_registration(h, flags, counter, credential_id, cose_key);
            &&& ad.len() == 119 + cose_key.len()
            &&& ad.subrange(0, 32) == h
            &&& ad[32] == flags
            &&& ad.subrange(33, 37) == be32(counter)
            &&& ad.subrange(37, 53) == zero_bytes(16)
            &&& ad.subrange(53, 55) == be16(64)
            &&& ad.subrange(55, 119) == credential_id
            &&& ad.subrange(119, ad.len() as int) == cose_key
        }),
{
    let ad = auth_data_registration(h, flags, counter, credential_id, cose_key);
    assert(be32(counter).len() == 4);
    assert(be16(64).len() == 2);
    assert(zero_bytes(16).len() == 16);
    assert(ad.len() == 119 + cose_key.len());
    assert(ad.subrange(0, 32) =~= h);
    assert(ad.subrange(33, 37) =~= be32(counter));
    assert(ad.subrange(37, 53) =~= zero_bytes(16));
    assert(ad.subrange(53, 55) =~= be16(64));
    assert(ad.subrange(55, 119) =~= credential_id);
    assert(ad.subrange(119, ad.len() as int) =~= cose_key);
}

/// Law: decoding a registration attestation object yields authenticator
/// data whose first 32 bytes are the relying-party-ID hash and whose
/// attested credential data carries the credential ID and the COSE key's x
/// and y coordinates at fixed offsets.
#[verifier::rlimit(50)]
pub proof fn lemma_attestation_embeds_credential(
    h: Seq<u8>,
    flags: u8,
    counter: u32,
    credential_id: Seq<u8>,
    x: Seq<u8>,
    y: Seq<u8>,
)
    requires
        h.len() == 32,
        credential_id.len() == 64,
        x.len() == 32,
        y.len() == 32,
    ensures
        ({
            let ad = auth_data_registration(h, flags, counter, credential_id, cose_key_bytes(x, y));
            let att = attestation_object_bytes(ad);
            &&& ad.len() == 196
            &&& att.len() == 226
            &&& att.subrange(30, 226) == ad
            &&& ad.subrange(0, 32) == h
            &&& ad[32] == flags
            &&& ad.subrange(33, 37) == be32(counter)
            &&& ad.subrange(55, 119) == credential_id
            &&& ad.subrange(129, 161) == x
            &&& ad.subrange(164, 196) == y
        }),
{
    let cose = cose_key_bytes(x, y);
    lemma_cose_key_layout(x, y);
    lemma_registration_auth_data_layout(h, flags, counter, credential_id, cose);
    let ad = auth_data_registration(h, flags, counter, credential_id, cose);
    lemma_attestation_object_layout(ad);
    assert forall|i: int| 0 <= i < 77 implies ad[119 + i] == cose[i] by {
        assert(ad.subrange(119, 196)[i] == cose[i]);
    }
    assert(ad.subrange(129, 161) =~= cose.subrange(10, 42));
    assert(ad.subrange(164, 196) =~= cose.subrange(45, 77));
}

/// A character that JSON string syntax carries verbatim: not a quote, not a
/// backslash, not a control character.
pub open spec fn json_verbatim_char(c: char) -> bool {
    c != '"' && c != '\\' && (c as int) >= 0x20
}

/// A text every character of which JSON string syntax carries verbatim, so
/// that splicing it between quotes needs no escaping.
pub open spec fn json_verbatim(s: Seq<char>) -> bool {
    forall|i: int| 0 <= i < s.len() ==> json_verbatim_char(#[trigger] s[i])
}

/// Law: base64url text (URL-safe alphabet: letters, digits, `-`, `_`) never
/// needs JSON escaping.
pub proof fn lemma_b64url_text_json_verbatim(s: Seq<char>)
    requires
        forall|i: int| 0 <= i < s.len() ==> b64url_alphabet_char(#[trigger] s[i]),
    ensures
        json_verbatim(s),
{
    assert forall|i: int| 0 <= i < s.len() implies json_verbatim_char(#[trigger] s[i]) by {
        assert(b64url_alphabet_char(s[i]));
    }
}

/// The clientData JSON text, with the exact field names, order and casing of
/// the wire format: `{"type":..,"challenge":..,"origin":..,"crossOrigin":..}`.
/// The three values are spliced between quotes verbatim, which is the JSON
/// serialization exactly when they need no escaping.
pub open spec fn client_data_json_chars(
    typ: Seq<char>,
    challenge: Seq<char>,
    origin: Seq<char>,
    cross_origin: bool,
) -> Seq<char> {
    "{\"type\":\""@ + typ + "\",\"challenge\":\""@ + challenge + "\",\"origin\":\""@ + origin
        + "\",\"crossOrigin\":"@ + (if cross_origin {
        "true"@
    } else {
        "false"@
    }) + "}"@
}

pub fn build_client_data_json(
    typ: &str,
    challenge: &str,
    origin: &str,
    cross_origin: bool,
) -> (r: String)
    requires
        json_verbatim(typ@),
        json_verbatim(challenge@),
        json_verbatim(origin@),
    ensures
        r@ == client_data_json_chars(typ@, challenge@, origin@, cross_origin),
{
    let mut s = String::from_str("{\"type\":\"");
    s.append(typ);
    s.append("\",\"challenge\":\"");
    s.append(challenge);
    s.append("\",\"origin\":\"");
    s.append(origin);
    s.append("\",\"crossOrigin\":");
    if cross_origin {
        s.append("true");
    } else {
        s.append("false");
    }
    s.append("}");
    proof {
        assert(s@ =~= client_data_json_chars(typ@, challenge@, origin@, cross_origin));
    }
    s
}

} // verus!
