//! ECDSA over P-256: key pairs, signing into fixed-width components, and verification
//! that rejects malformed input.
pub mod scalar;
pub mod primitives;
pub mod verify;
pub mod keypair;

pub use keypair::{KeyPair, SignatureComponents};
pub use verify::{try_verify_signature, verify_signature, VerifyError};
