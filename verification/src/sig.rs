//! Authentication of inbound request bodies.
//!
//! The sender proves possession of the shared secret by presenting the
//! lowercase-hex keyed digest of the exact raw body bytes. [`verify_signature`]
//! recomputes that digest and compares; it is a pure function of its three
//! inputs and never panics. It must be run on the raw bytes, before any
//! parsing, since a reserialized body need not be byte-identical.

use vstd::prelude::*;

use hmac::{KeyInit, Mac};
use sha2::Sha256;

use crate::text::str_eq_fixed_time;

verus! {

/// The keyed SHA-256 digest of `body` under the key made of `secret`'s bytes.
/// A function of its two arguments alone; its value is not stated here, only
/// named, and everything downstream of the digest is proved over the name.
pub uninterp spec fn hmac_sha256_of(secret: Seq<char>, body: Seq<u8>) -> Seq<u8>;

/// The lowercase hex digit for a nibble.
pub open spec fn hex_digit(nibble: u8) -> char
    recommends
        nibble < 16,
{
    match nibble {
        0 => '0',
        1 => '1',
        2 => '2',
        3 => '3',
        4 => '4',
        5 => '5',
        6 => '6',
        7 => '7',
        8 => '8',
        9 => '9',
        10 => 'a',
        11 => 'b',
        12 => 'c',
        13 => 'd',
        14 => 'e',
        _ => 'f',
    }
}

/// Lowercase hex encoding: two digits per byte, high nibble first.
pub open spec fn hex_of(bytes: Seq<u8>) -> Seq<char>
    decreases bytes.len(),
{
    if bytes.len() == 0 {
        Seq::<char>::empty()
    } else {
        hex_of(bytes.drop_last()) + seq![
            hex_digit(bytes.last() / 16),
            hex_digit(bytes.last() % 16),
        ]
    }
}

/// A presented signature is accepted exactly when the secret is non-empty
/// and the signature is the lowercase-hex keyed digest of the body.
pub open spec fn verify_spec(secret: Seq<char>, body: Seq<u8>, signature: Seq<char>) -> bool {
    secret.len() > 0 && signature == hex_of(hmac_sha256_of(secret, body))
}

/// Relies on hmac's `Hmac<Sha256>`: keys of any length are accepted
/// (`new_from_slice` never fails for HMAC), the digest is a function of the
/// key bytes and the message alone, and SHA-256 output is 32 bytes.
#[verifier::external_body]
fn hmac_sha256(secret: &str, body: &[u8]) -> (r: Vec<u8>)
    ensures
        r@ == hmac_sha256_of(secret@, body@),
        r@.len() == 32,
{
    let mut mac = <hmac::Hmac<Sha256> as KeyInit>::new_from_slice(secret.as_bytes())
        .expect("HMAC accepts keys of any length");
    Mac::update(&mut mac, body);
    Mac::finalize(mac).into_bytes().to_vec()
}

/// Relies on `hex::encode`: lowercase hex, exactly two digits per byte,
/// high nibble first.
#[verifier::external_body]
fn encode_hex(bytes: &Vec<u8>) -> (r: String)
    ensures
        r@ == hex_of(bytes@),
{
    hex::encode(bytes)
}

/// Recomputes the keyed digest of `body` under `secret` and compares its
/// lowercase-hex form with the presented signature, in fixed time. Returns
/// `true` exactly when [`verify_spec`] holds; in particular an empty secret
/// is rejected.
pub fn verify_signature(secret: &str, body: &[u8], signature: &str) -> (r: bool)
    ensures
        r == verify_spec(secret@, body@, signature@),
{
    if secret.is_empty() {
        return false;
    }
    let digest = hmac_sha256(secret, body);
    let expected = encode_hex(&digest);
    str_eq_fixed_time(expected.as_str(), signature)
}

/// Law: the signature computed as the lowercase-hex keyed digest of the body
/// under a non-empty secret always verifies.
pub proof fn lemma_correct_signature_verifies(secret: Seq<char>, body: Seq<u8>)
    requires
        secret.len() > 0,
    ensures
        verify_spec(secret, body, hex_of(hmac_sha256_of(secret, body))),
{
}

/// Law: any presented signature that differs from the lowercase-hex keyed
/// digest of the body — in one character or in any other way — is rejected.
pub proof fn lemma_wrong_signature_rejected(secret: Seq<char>, body: Seq<u8>, signature: Seq<char>)
    requires
        signature != hex_of(hmac_sha256_of(secret, body)),
    ensures
        !verify_spec(secret, body, signature),
{
}

} // verus!
