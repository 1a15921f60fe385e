//! Verification of `(r, s)` signatures against a SEC1-encoded public key.
use vstd::prelude::*;
use crate::primitives::{
    ecdsa_accepts, is_public_key, public_key_is_valid, scalars_are_valid, verify_with_public_key,
};
use crate::scalar::is_scalar;

verus! {

/// Why a signature was not accepted.
#[derive(Debug, Clone, Copy, PartialEq, Eq, Structural)]
pub enum VerifyError {
    /// The public key is not a SEC1 encoding of a curve point other than the identity.
    MalformedPublicKey,
    /// `r` or `s` is not exactly 32 bytes long.
    MalformedScalar,
    /// `r` or `s` is zero or not below the group order.
    ScalarOutOfRange,
    /// The inputs are well formed, but the verification equation does not hold.
    SignatureMismatch,
}

/// The outcome of checking `(r, s)` on `message` under `public_key`: the first failing
/// stage, in the order key, lengths, ranges, equation.
pub open spec fn verification_outcome(
    message: Seq<u8>,
    r: Seq<u8>,
    s: Seq<u8>,
    public_key: Seq<u8>,
) -> Result<(), VerifyError> {
    if !is_public_key(public_key) {
        Err(VerifyError::MalformedPublicKey)
    } else if r.len() != 32 || s.len() != 32 {
        Err(VerifyError::MalformedScalar)
    } else if !(is_scalar(r) && is_scalar(s)) {
        Err(VerifyError::ScalarOutOfRange)
    } else if !ecdsa_accepts(public_key, message, r, s) {
        Err(VerifyError::SignatureMismatch)
    } else {
        Ok(())
    }
}

/// A signature is valid when the key parses, both components are scalars of the group,
/// and the ECDSA equation holds.
pub open spec fn signature_valid(
    message: Seq<u8>,
    r: Seq<u8>,
    s: Seq<u8>,
    public_key: Seq<u8>,
) -> bool {
    &&& is_public_key(public_key)
    &&& is_scalar(r)
    &&& is_scalar(s)
    &&& ecdsa_accepts(public_key, message, r, s)
}

/// Checks `(r, s)` on `message` under `public_key`, telling malformed input apart from a
/// signature that does not verify.
pub fn try_verify_signature(message: &[u8], r: &[u8], s: &[u8], public_key: &[u8]) -> (outcome:
    Result<(), VerifyError>)
    ensures
        outcome == verification_outcome(message@, r@, s@, public_key@),
        outcome is Ok <==> signature_valid(message@, r@, s@, public_key@),
        !(public_key@.len() == 33 || public_key@.len() == 65) ==> outcome == Err::<(), VerifyError>(VerifyError::MalformedPublicKey),
{
    if !public_key_is_valid(public_key) {
        return Err(VerifyError::MalformedPublicKey);
    }
    if r.len() != 32 || s.len() != 32 {
        return Err(VerifyError::MalformedScalar);
    }
    if !scalars_are_valid(r, s) {
        return Err(VerifyError::ScalarOutOfRange);
    }
    if !verify_with_public_key(public_key, message, r, s) {
        return Err(VerifyError::SignatureMismatch);
    }
    Ok(())
}

/// Whether `(r, s)` is a valid signature of `message` under `public_key`; any malformed
/// input gives `false`.
pub fn verify_signature(message: &[u8], r: &[u8], s: &[u8], public_key: &[u8]) -> (valid: bool)
    ensures
        valid == signature_valid(message@, r@, s@, public_key@),
        !(public_key@.len() == 33 || public_key@.len() == 65) ==> !valid,
        r@.len() != 32 || s@.len() != 32 ==> !valid,
{
    try_verify_signature(message, r, s, public_key).is_ok()
}

/// A component that is not 32 bytes long never verifies, and under a well-formed key it is
/// reported as malformed rather than as a failed check.
pub proof fn lemma_malformed_scalar_rejected(
    message: Seq<u8>,
    r: Seq<u8>,
    s: Seq<u8>,
    public_key: Seq<u8>,
)
    requires
        r.len() != 32 || s.len() != 32,
    ensures
        !signature_valid(message, r, s, public_key),
        is_public_key(public_key) ==> verification_outcome(message, r, s, public_key) == Err::<
            (),
            VerifyError,
        >(VerifyError::MalformedScalar),
{
}

/// Bytes that are not a public key make every signature invalid, whatever `r` and `s` are.
pub proof fn lemma_malformed_public_key_rejected(
    message: Seq<u8>,
    r: Seq<u8>,
    s: Seq<u8>,
    public_key: Seq<u8>,
)
    requires
        !is_public_key(public_key),
    ensures
        !signature_valid(message, r, s, public_key),
        verification_outcome(message, r, s, public_key) == Err::<(), VerifyError>(
            VerifyError::MalformedPublicKey,
        ),
{
}

/// The boolean verdict and the detailed outcome agree on every input.
pub proof fn lemma_outcome_matches_verdict(
    message: Seq<u8>,
    r: Seq<u8>,
    s: Seq<u8>,
    public_key: Seq<u8>,
)
    ensures
        verification_outcome(message, r, s, public_key) is Ok <==> signature_valid(
            message,
            r,
            s,
            public_key,
        ),
{
}

} // verus!
