//! Ed25519, as the crate `ed25519-dalek` computes it.
//!
//! Keys and signatures are handled as bytes. What the crate answers is
//! assumed, not proved: each function below names its answer, and the rest
//! of the library reasons about the names.

use vstd::prelude::*;

verus! {

/// Bytes of a public key.
pub const PUBLIC_KEY_LEN: usize = 32;

/// Bytes of a secret key.
pub const SECRET_KEY_LEN: usize = 32;

/// Bytes of a signature.
pub const SIGNATURE_LEN: usize = 64;

/// Whether `ed25519_dalek::PublicKey::from_bytes` accepts the bytes as a
/// public key.
pub uninterp spec fn ed25519_public_key_valid(public: Seq<u8>) -> bool;

/// The signature that the keypair made of `secret` and `public` gives to
/// `message`, where the crate accepts the keypair.
pub uninterp spec fn ed25519_signature(secret: Seq<u8>, public: Seq<u8>, message: Seq<u8>) -> Seq<u8>;

/// Whether the crate accepts `public` as a public key and `signature` as a
/// signature, and the signature verifies for `message` under the key.
pub uninterp spec fn ed25519_verifies(public: Seq<u8>, message: Seq<u8>, signature: Seq<u8>) -> bool;

/// Calls `ed25519_dalek::PublicKey::from_bytes` and says whether it accepted.
///
/// Assumed: the answer depends on the bytes alone, and only 32 bytes are
/// accepted.
#[verifier::external_body]
pub(crate) fn public_key_valid(public: &[u8]) -> (ok: bool)
    ensures
        ok == ed25519_public_key_valid(public@),
        ok ==> public@.len() == PUBLIC_KEY_LEN,
{
    ed25519_dalek::PublicKey::from_bytes(public).is_ok()
}

/// Calls `ed25519_dalek::Keypair::from_bytes` on the secret key followed by
/// the public key, and `try_sign` on the keypair.
///
/// Assumed: the keypair is accepted exactly when the public key is; signing
/// with an accepted keypair does not fail, gives 64 bytes, and gives the
/// same bytes for the same keys and message.
#[verifier::external_body]
pub(crate) fn sign(secret: &[u8], public: &[u8], message: &[u8]) -> (signature: Option<Vec<u8>>)
    requires
        secret@.len() == SECRET_KEY_LEN,
        public@.len() == PUBLIC_KEY_LEN,
    ensures
        signature is Some <==> ed25519_public_key_valid(public@),
        signature matches Some(s) ==> s@ == ed25519_signature(secret@, public@, message@)
            && s@.len() == SIGNATURE_LEN,
{
    let keypair = ed25519_dalek::Keypair::from_bytes(&[secret, public].concat()).ok()?;
    let signature = ed25519_dalek::Signer::try_sign(&keypair, message).ok()?;
    Some(signature.to_bytes().to_vec())
}

/// Calls `ed25519_dalek::PublicKey::from_bytes`,
/// `ed25519_dalek::Signature::from_bytes` and `verify` on the key.
///
/// Assumed: the answer depends on the three byte strings alone.
#[verifier::external_body]
pub(crate) fn verify(public: &[u8], message: &[u8], signature: &[u8]) -> (ok: bool)
    ensures
        ok == ed25519_verifies(public@, message@, signature@),
{
    match (
        ed25519_dalek::PublicKey::from_bytes(public),
        ed25519_dalek::Signature::from_bytes(signature),
    ) {
        (Ok(key), Ok(signature)) => ed25519_dalek::Verifier::verify(
            &key,
            message,
            &signature,
        ).is_ok(),
        _ => false,
    }
}

/// Generates a random Ed25519 keypair with `ed25519_dalek::Keypair::generate`
/// on the random numbers of the operating system, and returns the public key
/// and the private key, in this order.
///
/// Nothing is assumed of the keys. The crate panics where the operating
/// system has no random numbers to give.
#[verifier::external_body]
pub fn random_keypair() -> (keys: ([u8; 32], [u8; 32])) {
    let keypair = ed25519_dalek::Keypair::generate(&mut rand::rngs::OsRng {  });
    (keypair.public.to_bytes(), keypair.secret.to_bytes())
}

} // verus!
