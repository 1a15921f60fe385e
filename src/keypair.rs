//! A P-256 key pair that signs messages into fixed-width components.
use vstd::prelude::*;
use crate::primitives::{
    derive_public_key, is_public_key, public_key_of, random_secret, sha256, sha256_of, sign_with_secret,
    signature_of,
};
use crate::scalar::is_scalar;
use crate::verify::{signature_valid, verify_signature};

verus! {

/// What signing a message produces: the two signature scalars, 32 big-endian bytes each,
/// and the SHA-256 digest of the message.
pub struct SignatureComponents {
    pub r: Vec<u8>,
    pub s: Vec<u8>,
    pub message_hash: Vec<u8>,
}

/// A private signing scalar, with the encoding of its public key that is derived from it
/// once, when the pair is made.
pub struct KeyPair {
    secret: Vec<u8>,
    public_key: Vec<u8>,
}

impl KeyPair {
    #[verifier::type_invariant]
    spec fn well_formed(self) -> bool {
        &&& is_scalar(self.secret@)
        &&& self.public_key@ == public_key_of(self.secret@)
        &&& self.public_key@.len() == 65
        &&& self.public_key@[0] == 4
        &&& is_public_key(self.public_key@)
    }

    /// The private scalar, as 32 big-endian bytes.
    pub closed spec fn secret_scalar(&self) -> Seq<u8> {
        self.secret@
    }

    /// The uncompressed SEC1 encoding of this pair's public key.
    pub open spec fn public_key_spec(&self) -> Seq<u8> {
        public_key_of(self.secret_scalar())
    }

    /// The components that signing `message` with this pair yields.
    pub open spec fn components_of(&self, message: Seq<u8>) -> (Seq<u8>, Seq<u8>, Seq<u8>) {
        let signature = signature_of(self.secret_scalar(), message);
        (signature.subrange(0, 32), signature.subrange(32, 64), sha256_of(message))
    }

    /// Generates a fresh private scalar from the operating system's random source, and
    /// derives its public key.
    pub fn new() -> (pair: KeyPair)
        ensures
            is_scalar(pair.secret_scalar()),
    {
        let secret = random_secret();
        let public_key = derive_public_key(&secret);
        KeyPair { secret, public_key }
    }

    /// Signs `message`. The result verifies under this pair's public key, and its
    /// `message_hash` is the SHA-256 digest of `message`.
    pub fn sign(&self, message: &[u8]) -> (components: SignatureComponents)
        ensures
            (components.r@, components.s@, components.message_hash@) == self.components_of(
                message@,
            ),
            components.r@.len() == 32,
            components.s@.len() == 32,
            components.message_hash@.len() == 32,
            is_scalar(components.r@),
            is_scalar(components.s@),
            signature_valid(message@, components.r@, components.s@, self.public_key_spec()),
    {
        proof {
            use_type_invariant(self);
        }
        let message_hash = sha256(message);
        let signature = sign_with_secret(&self.secret, message);
        let mut r: Vec<u8> = Vec::with_capacity(32);
        let mut s: Vec<u8> = Vec::with_capacity(32);
        let mut i: usize = 0;
        while i < 32
            invariant
                0 <= i <= 32,
                signature@.len() == 64,
                r@ == signature@.subrange(0, i as int),
                s@ == signature@.subrange(32, 32 + i as int),
            decreases 32 - i,
        {
            r.push(signature[i]);
            s.push(signature[32 + i]);
            i += 1;
        }
        SignatureComponents { r, s, message_hash }
    }

    /// The 65-byte uncompressed SEC1 encoding `0x04 || X || Y` of this pair's public key.
    pub fn get_public_key(&self) -> (public_key: Vec<u8>)
        ensures
            public_key@ == self.public_key_spec(),
            public_key@.len() == 65,
            public_key@[0] == 4,
    {
        proof {
            use_type_invariant(self);
        }
        let public_key = self.public_key.clone();
        proof {
            assert(public_key@ =~= self.public_key@);
        }
        public_key
    }

    /// Whether `(r, s)` is a valid signature of `message` under this pair's public key;
    /// components that are not 32 bytes long give `false`.
    pub fn verify(&self, message: &[u8], r: &[u8], s: &[u8]) -> (valid: bool)
        ensures
            valid == signature_valid(message@, r@, s@, self.public_key_spec()),
            r@.len() != 32 || s@.len() != 32 ==> !valid,
    {
        proof {
            use_type_invariant(self);
        }
        verify_signature(message, r, s, &self.public_key)
    }
}

/// Repeated reads of a pair's public key give the same bytes: it is a function of the
/// private scalar alone.
pub proof fn lemma_public_key_is_stable(pair: KeyPair, first: Seq<u8>, second: Seq<u8>)
    requires
        first == pair.public_key_spec(),
        second == pair.public_key_spec(),
    ensures
        first == second,
{
}

/// Signing is deterministic: the same pair and message give the same components.
pub proof fn lemma_signing_is_deterministic(pair: KeyPair, message: Seq<u8>, other: Seq<u8>)
    requires
        message == other,
    ensures
        pair.components_of(message) == pair.components_of(other),
{
}

/// The digest in the components of `message` is the SHA-256 of `message`, under every key.
pub proof fn lemma_message_hash_is_digest(first: KeyPair, second: KeyPair, message: Seq<u8>)
    ensures
        first.components_of(message).2 == sha256_of(message),
        first.components_of(message).2 == second.components_of(message).2,
{
}

} // verus!
