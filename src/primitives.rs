//! The curve and hash operations that the library takes from p256, sha2 and rand_core.
use vstd::prelude::*;
use crate::scalar::is_scalar;
use p256::ecdsa::signature::{Signer, Verifier};
use p256::ecdsa::{Signature, SigningKey, VerifyingKey};
use p256::{FieldBytes, SecretKey};
use rand_core::OsRng;
use sha2::{Digest, Sha256};

verus! {

/// The uncompressed SEC1 encoding of the public point that belongs to a secret scalar.
pub uninterp spec fn public_key_of(secret: Seq<u8>) -> Seq<u8>;

/// The RFC 6979 deterministic ECDSA signature `r || s` of a message under a secret scalar.
pub uninterp spec fn signature_of(secret: Seq<u8>, message: Seq<u8>) -> Seq<u8>;

/// The SHA-256 digest of a message.
pub uninterp spec fn sha256_of(message: Seq<u8>) -> Seq<u8>;

/// Whether bytes are a SEC1 encoding of a point of P-256 other than the identity.
pub uninterp spec fn is_public_key(encoded: Seq<u8>) -> bool;

/// Whether ECDSA verification of `(r, s)` on a message succeeds under a public key.
pub uninterp spec fn ecdsa_accepts(public_key: Seq<u8>, message: Seq<u8>, r: Seq<u8>, s: Seq<u8>) -> bool;

/// Relies on `SecretKey::random` with `OsRng`: a fresh nonzero scalar below the group order,
/// returned through `SecretKey::to_bytes` as 32 big-endian bytes.
#[verifier::external_body]
pub(crate) fn random_secret() -> (secret: Vec<u8>)
    ensures
        is_scalar(secret@),
{
    SecretKey::random(&mut OsRng).to_bytes().to_vec()
}

/// Relies on `VerifyingKey::to_encoded_point(false)` of the key that `SigningKey::from_slice`
/// builds: the point is never the identity, so the encoding is `0x04 || X || Y`, and it
/// parses back as a public key.
#[verifier::external_body]
pub(crate) fn derive_public_key(secret: &[u8]) -> (public_key: Vec<u8>)
    requires
        is_scalar(secret@),
    ensures
        public_key@ == public_key_of(secret@),
        public_key@.len() == 65,
        public_key@[0] == 4,
        is_public_key(public_key@),
{
    let key = SigningKey::from_slice(secret).unwrap();
    key.verifying_key().to_encoded_point(false).as_bytes().to_vec()
}

/// Relies on `Signer::sign` of `SigningKey` (RFC 6979 nonces, SHA-256 of the message):
/// `Signature::to_bytes` gives `r || s`, both nonzero scalars, and the signature verifies
/// under the key's own public key.
#[verifier::external_body]
pub(crate) fn sign_with_secret(secret: &[u8], message: &[u8]) -> (signature: Vec<u8>)
    requires
        is_scalar(secret@),
    ensures
        signature@ == signature_of(secret@, message@),
        signature@.len() == 64,
        is_scalar(signature@.subrange(0, 32)),
        is_scalar(signature@.subrange(32, 64)),
        ecdsa_accepts(
            public_key_of(secret@),
            message@,
            signature@.subrange(0, 32),
            signature@.subrange(32, 64),
        ),
{
    let key = SigningKey::from_slice(secret).unwrap();
    let signature: Signature = key.sign(message);
    signature.to_bytes().to_vec()
}

/// Relies on `Sha256::digest`: 32 bytes that depend on the message alone.
#[verifier::external_body]
pub(crate) fn sha256(message: &[u8]) -> (digest: Vec<u8>)
    ensures
        digest@ == sha256_of(message@),
        digest@.len() == 32,
{
    Sha256::digest(message).to_vec()
}

/// Relies on `VerifyingKey::from_sec1_bytes`: it accepts a SEC1 point other than the
/// identity, whose encoding is 33 bytes (compressed) or 65 bytes (uncompressed).
#[verifier::external_body]
pub(crate) fn public_key_is_valid(encoded: &[u8]) -> (valid: bool)
    ensures
        valid == is_public_key(encoded@),
        valid ==> encoded@.len() == 33 || encoded@.len() == 65,
{
    VerifyingKey::from_sec1_bytes(encoded).is_ok()
}

/// Relies on `Signature::from_scalars`: it succeeds exactly when both components are
/// nonzero and below the group order.
#[verifier::external_body]
pub(crate) fn scalars_are_valid(r: &[u8], s: &[u8]) -> (valid: bool)
    requires
        r@.len() == 32,
        s@.len() == 32,
    ensures
        valid == (is_scalar(r@) && is_scalar(s@)),
{
    Signature::from_scalars(FieldBytes::clone_from_slice(r), FieldBytes::clone_from_slice(s)).is_ok()
}

/// Relies on `Verifier::verify` of `VerifyingKey` (SHA-256 of the message), on the key and
/// signature that `from_sec1_bytes` and `from_scalars` build from the checked bytes.
#[verifier::external_body]
pub(crate) fn verify_with_public_key(
    public_key: &[u8],
    message: &[u8],
    r: &[u8],
    s: &[u8],
) -> (accepted: bool)
    requires
        is_public_key(public_key@),
        is_scalar(r@),
        is_scalar(s@),
    ensures
        accepted == ecdsa_accepts(public_key@, message@, r@, s@),
{
    let key = VerifyingKey::from_sec1_bytes(public_key).unwrap();
    let r = FieldBytes::clone_from_slice(r);
    let s = FieldBytes::clone_from_slice(s);
    let signature = Signature::from_scalars(r, s).unwrap();
    key.verify(message, &signature).is_ok()
}

} // verus!
