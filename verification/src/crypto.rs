//! The cryptographic primitives, as the library sees them.
//!
//! Nothing in this file is proved.  Each function hands its arguments to a
//! cryptographic crate, and its contract states what the library relies on:
//! for a function of its arguments alone, that the result is that function
//! of them; for one that draws random bytes, nothing.

use aes::cipher::{KeyIvInit, StreamCipher, StreamCipherSeek};
use base64::Engine;
use ed25519_dalek::{Signer, Verifier};
use sha2::Digest;
use vstd::prelude::*;

verus! {

/// The SHA-256 digest of `data`, as the array of its 32 bytes.
pub uninterp spec fn spec_sha256_array(data: Seq<u8>) -> [u8; 32];

/// The SHA-256 digest of `data`.
pub open spec fn spec_sha256(data: Seq<u8>) -> Seq<u8> {
    spec_sha256_array(data)@
}

/// Hashes `data`.
///
/// Trusted: `sha2::Sha256::digest` computes a function of the bytes it is
/// given.  Its 32 bytes are that function's value.
#[verifier::external_body]
pub(crate) fn sha256_digest(data: &[u8]) -> (out: [u8; 32])
    ensures
        out == spec_sha256_array(data@),
{
    sha2::Sha256::digest(data).into()
}

/// The byte at position `pos` of the keystream that AES-256 in counter mode,
/// with a 64-bit big-endian counter, makes from `key` and `iv`.
pub uninterp spec fn spec_keystream(key: Seq<u8>, iv: Seq<u8>, pos: nat) -> u8;

/// Combines `data`, in place, with the keystream from position `pos` on.
///
/// Trusted: `ctr::Ctr64BE<aes::Aes256>` is a stream cipher.  `seek` moves it
/// to a byte position of its keystream, which `key` and `iv` determine, and
/// `apply_keystream` replaces each byte by its exclusive or with the
/// keystream byte of its position.  A position that fits in 64 bits is well
/// within the keystream.
#[verifier::external_body]
pub(crate) fn aes256_ctr_apply(key: &[u8; 32], iv: &[u8; 16], pos: u64, data: &mut Vec<u8>)
    ensures
        final(data)@.len() == old(data)@.len(),
        forall|i: int|
            0 <= i < old(data)@.len() ==> #[trigger] final(data)@[i] == old(data)@[i] ^ spec_keystream(
                key@,
                iv@,
                (pos + i) as nat,
            ),
{
    let mut cipher = ctr::Ctr64BE::<aes::Aes256>::new(key.into(), iv.into());
    cipher.seek(pos);
    cipher.apply_keystream(data.as_mut_slice());
}

/// The Ed25519 signature of `message` by the key pair `keypair`, the secret
/// seed followed by the public key.  There is none where the key pair does
/// not hold a public key.
pub uninterp spec fn spec_ed25519_sign(keypair: Seq<u8>, message: Seq<u8>) -> Option<[u8; 64]>;

/// Signs `message`.
///
/// Trusted: `ed25519_dalek::Keypair::from_bytes` reads the 64 bytes or
/// rejects them, and `try_sign` computes a signature of 64 bytes from the
/// key pair and the message alone: Ed25519 signatures are deterministic.
#[verifier::external_body]
pub(crate) fn ed25519_sign(keypair: &[u8; 64], message: &[u8]) -> (out: Option<[u8; 64]>)
    ensures
        out == spec_ed25519_sign(keypair@, message@),
{
    let pair = match ed25519_dalek::Keypair::from_bytes(keypair) {
        Ok(pair) => pair,
        Err(_) => return None,
    };
    match pair.try_sign(message) {
        Ok(signature) => Some(signature.to_bytes()),
        Err(_) => None,
    }
}

/// Whether `signature` is a valid Ed25519 signature of `message` under
/// `public_key`.  Bytes that are no public key, or no signature, verify
/// nothing.
pub uninterp spec fn spec_ed25519_verify(public_key: Seq<u8>, message: Seq<u8>, signature: Seq<u8>) -> bool;

/// Verifies a signature.
///
/// Trusted: `ed25519_dalek::PublicKey::from_bytes` and
/// `ed25519_dalek::Signature::from_bytes` read the bytes or reject them, and
/// `PublicKey::verify` decides from the key, the message and the signature
/// alone.
#[verifier::external_body]
pub(crate) fn ed25519_verify(public_key: &[u8; 32], message: &[u8], signature: &[u8; 64]) -> (ok: bool)
    ensures
        ok == spec_ed25519_verify(public_key@, message@, signature@),
{
    let key = match ed25519_dalek::PublicKey::from_bytes(public_key) {
        Ok(key) => key,
        Err(_) => return false,
    };
    let signature = match ed25519_dalek::Signature::from_bytes(signature) {
        Ok(signature) => signature,
        Err(_) => return false,
    };
    key.verify(message, &signature).is_ok()
}

/// Makes a new Ed25519 key pair: 32 bytes of secret seed, then the 32 bytes
/// of the public key.
///
/// Trusted: `ed25519_dalek::Keypair::generate` draws from the operating
/// system's random source.  Nothing is known of the bytes.
#[verifier::external_body]
pub(crate) fn ed25519_generate() -> (out: [u8; 64]) {
    ed25519_dalek::Keypair::generate(&mut rand_core::OsRng).to_bytes()
}

/// The secret half of an X25519 key pair that is used once.
#[verifier::external_type_specification]
#[verifier::external_body]
pub struct ExEphemeralSecret(x25519_dalek::EphemeralSecret);

/// Makes a new X25519 secret.
///
/// Trusted: `x25519_dalek::EphemeralSecret::new` draws from the operating
/// system's random source.  Nothing is known of the secret.
#[verifier::external_body]
pub(crate) fn x25519_ephemeral() -> (secret: x25519_dalek::EphemeralSecret) {
    x25519_dalek::EphemeralSecret::new(rand_core::OsRng)
}

/// The public key that belongs to `secret`.
///
/// Trusted: `x25519_dalek::PublicKey::from` a secret.  The secret is opaque,
/// so nothing is stated of the key but its length.
#[verifier::external_body]
pub(crate) fn x25519_public(secret: &x25519_dalek::EphemeralSecret) -> (out: [u8; 32]) {
    x25519_dalek::PublicKey::from(secret).to_bytes()
}

/// The secret shared between `secret` and the peer's public key.
///
/// Trusted: `x25519_dalek::EphemeralSecret::diffie_hellman`.  The secret is
/// opaque, so nothing is stated of the result but its length.
#[verifier::external_body]
pub(crate) fn x25519_shared(secret: x25519_dalek::EphemeralSecret, peer: &[u8; 32]) -> (out: [u8; 32]) {
    secret.diffie_hellman(&x25519_dalek::PublicKey::from(*peer)).to_bytes()
}

/// The base64 form of `data`: standard alphabet, no padding.
pub uninterp spec fn spec_base64(data: Seq<u8>) -> Seq<char>;

/// Encodes `data` in base64.
///
/// Trusted: the engine `STANDARD_NO_PAD` of the crate `base64` computes a
/// function of the bytes it is given.
#[verifier::external_body]
pub(crate) fn base64_encode(data: &[u8]) -> (out: String)
    ensures
        out@ == spec_base64(data@),
{
    let mut out = String::new();
    base64::engine::general_purpose::STANDARD_NO_PAD.encode_string(data, &mut out);
    out
}

} // verus!
