//! Salted password hashes: PBKDF2 with HMAC-SHA256, written in hexadecimal.

use crate::hex::{from_hex, hex_decode, hex_encode, lemma_hex_round_trip, to_hex};
use std::num::NonZeroU32;
use vstd::prelude::*;
use vstd::utf8::encode_utf8;

verus! {

/// The number of bytes in a derived credential: one SHA-256 output.
pub const CREDENTIAL_LEN: usize = 32;

/// The iteration count of every derivation. A stored hash is only good for
/// the count it was made with.
pub const PBKDF2_ITERATIONS: u32 = 100_000;

/// The first 32 bytes of PBKDF2 with HMAC-SHA256 (RFC 2898, section 5.2)
/// for the given iteration count, salt and secret.
pub uninterp spec fn pbkdf2_hmac_sha256(iterations: u32, salt: Seq<u8>, secret: Seq<u8>) -> [u8; 32];

/// The number of bytes that is too much for the digest: it counts its input
/// in bits, in 64 bits.
pub const DIGEST_INPUT_LIMIT: u64 = 0x2000_0000_0000_0000;

/// The inputs that the digest can take. The salt is hashed behind a 64-byte
/// key block and before a 4-byte block index.
pub open spec fn pbkdf2_takes(salt: Seq<u8>, secret: Seq<u8>) -> bool {
    &&& secret.len() < DIGEST_INPUT_LIMIT
    &&& salt.len() + 68 < DIGEST_INPUT_LIMIT
}

/// Calls `ring::pbkdf2::derive` with `PBKDF2_HMAC_SHA256` on a buffer of 32
/// bytes. Taken on trust: that the bytes are those of PBKDF2, the same
/// whenever count, salt and secret are the same. The call panics where the
/// digest cannot take the salt or the secret; such inputs are not admitted.
#[verifier::external_body]
fn pbkdf2_derive(iterations: u32, salt: &[u8], secret: &[u8]) -> (out: [u8; 32])
    requires
        iterations > 0,
        pbkdf2_takes(salt@, secret@),
    ensures
        out@ == pbkdf2_hmac_sha256(iterations, salt@, secret@)@,
{
    let mut out = [0u8; 32];
    let rounds = NonZeroU32::new(iterations).unwrap();
    ring::pbkdf2::derive(ring::pbkdf2::PBKDF2_HMAC_SHA256, rounds, salt, secret, &mut out);
    out
}

/// Calls `ring::pbkdf2::verify` with `PBKDF2_HMAC_SHA256` on 32 bytes that
/// were derived earlier. Taken on trust: that it succeeds where deriving
/// anew gives these bytes, and nowhere else. It compares all the bytes,
/// whether or not the first ones differ.
#[verifier::external_body]
fn pbkdf2_verify(iterations: u32, salt: &[u8], secret: &[u8], derived: &[u8]) -> (ok: bool)
    requires
        iterations > 0,
        pbkdf2_takes(salt@, secret@),
        derived@.len() == 32,
    ensures
        ok == (derived@ == pbkdf2_hmac_sha256(iterations, salt@, secret@)@),
{
    let rounds = NonZeroU32::new(iterations).unwrap();
    ring::pbkdf2::verify(ring::pbkdf2::PBKDF2_HMAC_SHA256, rounds, salt, secret, derived).is_ok()
}

/// Whether a credential can be derived from this password and salt.
pub open spec fn derivable(pass: Seq<char>, salt: Seq<char>) -> bool {
    pbkdf2_takes(encode_utf8(salt), encode_utf8(pass))
}

/// The credential of a password under a salt.
pub open spec fn credential(pass: Seq<char>, salt: Seq<char>) -> Seq<u8> {
    pbkdf2_hmac_sha256(PBKDF2_ITERATIONS, encode_utf8(salt), encode_utf8(pass))@
}

/// The stored form of a password: its credential in hexadecimal.
pub open spec fn stored_password(pass: Seq<char>, salt: Seq<char>) -> Seq<char> {
    hex_encode(credential(pass, salt))
}

/// Whether `pass_hash` is a stored form of this password under this salt.
pub open spec fn password_matches(pass: Seq<char>, salt: Seq<char>, pass_hash: Seq<char>) -> bool {
    derivable(pass, salt) && hex_decode(pass_hash) == Some(credential(pass, salt))
}

/// The iteration count, for the derivation.
pub fn pbdkf2_iterations() -> (iterations: u32)
    ensures
        iterations == PBKDF2_ITERATIONS,
        iterations > 0,
{
    PBKDF2_ITERATIONS
}

/// Derives the credential of `pass` under `salt` and writes it in lower-case
/// hexadecimal, two digits per byte.
pub fn store_password(pass: &str, salt: &str) -> (pass_hash: String)
    requires
        derivable(pass@, salt@),
    ensures
        pass_hash@ == stored_password(pass@, salt@),
        pass_hash@.len() == 2 * CREDENTIAL_LEN,
{
    let derived = pbkdf2_derive(pbdkf2_iterations(), salt.as_bytes(), pass.as_bytes());
    to_hex(&derived)
}

/// Whether the digest can take this password and salt.
pub fn can_derive(pass: &str, salt: &str) -> (ok: bool)
    ensures
        ok == derivable(pass@, salt@),
{
    let pass_len = pass.as_bytes().len() as u64;
    let salt_len = salt.as_bytes().len() as u64;
    pass_len < DIGEST_INPUT_LIMIT && salt_len < DIGEST_INPUT_LIMIT - 68
}

/// Whether `pass_hash` holds the credential of `pass` under `salt`. A hash
/// that is no hexadecimal text, or not of 32 bytes, matches nothing, and
/// nothing matches a password or a salt that the digest cannot take.
pub fn verify_password(pass: &str, salt: &str, pass_hash: &str) -> (ok: bool)
    ensures
        ok == password_matches(pass@, salt@, pass_hash@),
        hex_decode(pass_hash@) is None ==> !ok,
        hex_decode(pass_hash@) matches Some(bytes) && bytes.len() != CREDENTIAL_LEN ==> !ok,
{
    match from_hex(pass_hash) {
        None => false,
        Some(stored) => {
            if stored.len() != CREDENTIAL_LEN || !can_derive(pass, salt) {
                false
            } else {
                pbkdf2_verify(pbdkf2_iterations(), salt.as_bytes(), pass.as_bytes(), stored.as_slice())
            }
        },
    }
}

/// A password matches the hash that was stored for it.
pub proof fn lemma_stored_password_verifies(pass: Seq<char>, salt: Seq<char>)
    requires
        derivable(pass, salt),
    ensures
        password_matches(pass, salt, stored_password(pass, salt)),
{
    lemma_hex_round_trip(credential(pass, salt));
}

/// Another password does not match a stored hash, unless both passwords have
/// the same credential under the salt.
pub proof fn lemma_other_password_fails(pass: Seq<char>, salt: Seq<char>, wrong_pass: Seq<char>)
    requires
        wrong_pass != pass,
        credential(wrong_pass, salt) != credential(pass, salt),
    ensures
        !password_matches(wrong_pass, salt, stored_password(pass, salt)),
{
    lemma_hex_round_trip(credential(pass, salt));
}

/// A password does not match its stored hash under another salt, unless it
/// has the same credential under both salts.
pub proof fn lemma_other_salt_fails(pass: Seq<char>, salt: Seq<char>, wrong_salt: Seq<char>)
    requires
        wrong_salt != salt,
        credential(pass, wrong_salt) != credential(pass, salt),
    ensures
        !password_matches(pass, wrong_salt, stored_password(pass, salt)),
{
    lemma_hex_round_trip(credential(pass, salt));
}

/// Nothing matches a stored hash that is no hexadecimal text.
pub proof fn lemma_non_hex_hash_fails(pass: Seq<char>, salt: Seq<char>, pass_hash: Seq<char>)
    requires
        hex_decode(pass_hash) is None,
    ensures
        !password_matches(pass, salt, pass_hash),
{
}

} // verus!
