//! The signature scheme of export manifests: Ed25519.

use vstd::prelude::*;

verus! {

/// The length of a signature of the scheme, in bytes.
pub const SIGNATURE_LENGTH: usize = 64;

/// The length of a verification key of the scheme, in bytes.
pub const KEY_LENGTH: usize = 32;

/// The error of the `ed25519-dalek` crate.
#[verifier::external_type_specification]
#[verifier::external_body]
pub struct ExSignatureError(ed25519_dalek::SignatureError);

/// Whether the `ed25519-dalek` crate takes `signature` for a signature of
/// `message` under the verification key `key`: the key is the encoding of a
/// curve point and the verification equation holds.
pub uninterp spec fn ed25519_accepts(key: Seq<u8>, message: Seq<u8>, signature: Seq<u8>) -> bool;

/// The `ed25519-dalek` crate's `Verifier::verify` on a `VerifyingKey`, with key
/// and signature converted from their bytes by the crate's `TryFrom` impls. The
/// crate reads nothing but the three byte strings, and returns `Ok` exactly
/// where `ed25519_accepts` holds of them; a key that is no curve point is an
/// error like a signature that does not match.
#[verifier::external_body]
fn verify_strictly_sized(key: &[u8], message: &[u8], signature: &[u8]) -> (r: Result<
    (),
    ed25519_dalek::SignatureError,
>)
    requires
        key@.len() == KEY_LENGTH,
        signature@.len() == SIGNATURE_LENGTH,
    ensures
        r is Ok <==> ed25519_accepts(key@, message@, signature@),
{
    let key = ed25519_dalek::VerifyingKey::try_from(key)?;
    let signature = ed25519_dalek::Signature::try_from(signature)?;
    ed25519_dalek::Verifier::verify(&key, message, &signature)
}

/// Whether a signature is valid for a message under a registered key. A key of
/// another length than the scheme's is no verification key: the platform keeps
/// keys for other purposes in the same place, and against such a key no
/// signature is valid. Nor is a signature of another length than the scheme's.
pub open spec fn signature_valid(key: Seq<u8>, message: Seq<u8>, signature: Seq<u8>) -> bool {
    &&& key.len() == KEY_LENGTH
    &&& signature.len() == SIGNATURE_LENGTH
    &&& ed25519_accepts(key, message, signature)
}

/// Whether `signature` is valid for `message` under the registered key `key`.
pub fn check_signature(key: &[u8], message: &[u8], signature: &[u8]) -> (valid: bool)
    ensures
        valid == signature_valid(key@, message@, signature@),
{
    if key.len() == KEY_LENGTH && signature.len() == SIGNATURE_LENGTH {
        match verify_strictly_sized(key, message, signature) {
            Ok(_) => true,
            Err(_) => false,
        }
    } else {
        false
    }
}

} // verus!
