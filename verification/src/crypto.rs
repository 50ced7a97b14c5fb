use sha3::Digest;
use vstd::prelude::*;

verus! {

/// The Keccak-256 digest of a byte string.
pub uninterp spec fn keccak256_digest(data: Seq<u8>) -> Seq<u8>;

/// Calls `sha3::Keccak256::digest`.
///
/// Unproved: that the digest is the one named by [`keccak256_digest`], that is,
/// that it depends on the input bytes alone.
#[verifier::external_body]
pub(crate) fn keccak256(data: &Vec<u8>) -> (digest: Vec<u8>)
    ensures
        digest@ == keccak256_digest(data@),
{
    sha3::Keccak256::digest(data).to_vec()
}

/// How a signature check ended.
#[derive(Clone, Copy, Debug, PartialEq, Eq, Structural)]
pub enum SignatureCheck {
    /// The signature is valid for the message under the key.
    Accepted,
    /// Key and signature are well formed, but the signature does not match.
    Rejected,
    /// The signature bytes are not an Ed25519 signature.
    MalformedSignature,
    /// The key bytes are not an Ed25519 public key.
    MalformedKey,
}

/// Whether bytes have the form of an Ed25519 signature: 64 bytes, the three
/// highest bits of the last one clear.
pub open spec fn signature_well_formed(signature: Seq<u8>) -> bool {
    signature.len() == 64 && signature[63] & 0xe0 == 0
}

/// Whether `ed25519_dalek::PublicKey::from_bytes` accepts the bytes as a key.
pub uninterp spec fn ed25519_key_accepted(key: Seq<u8>) -> bool;

/// Whether `verify` of `ed25519_dalek::PublicKey` accepts the signature for the
/// message under the key.
pub uninterp spec fn ed25519_accepts(key: Seq<u8>, message: Seq<u8>, signature: Seq<u8>) -> bool;

/// How checking a signature for a message under a key ends.
pub open spec fn signature_check(key: Seq<u8>, message: Seq<u8>, signature: Seq<u8>)
    -> SignatureCheck {
    if !signature_well_formed(signature) {
        SignatureCheck::MalformedSignature
    } else if !ed25519_key_accepted(key) {
        SignatureCheck::MalformedKey
    } else if ed25519_accepts(key, message, signature) {
        SignatureCheck::Accepted
    } else {
        SignatureCheck::Rejected
    }
}

/// Parses the signature with `ed25519_dalek::Signature::try_from` and the key
/// with `ed25519_dalek::PublicKey::from_bytes`, then calls `verify` of the key.
///
/// Unproved: that the signature parses exactly when it is
/// [`signature_well_formed`], and that the other two outcomes are the ones
/// named by [`ed25519_key_accepted`] and [`ed25519_accepts`], that is, that
/// they depend on the bytes alone.
#[verifier::external_body]
pub(crate) fn ed25519_check(key: &Vec<u8>, message: &Vec<u8>, signature: &Vec<u8>) -> (outcome:
    SignatureCheck)
    ensures
        outcome == (if !signature_well_formed(signature@) {
            SignatureCheck::MalformedSignature
        } else if !ed25519_key_accepted(key@) {
            SignatureCheck::MalformedKey
        } else if ed25519_accepts(key@, message@, signature@) {
            SignatureCheck::Accepted
        } else {
            SignatureCheck::Rejected
        }),
{
    let signature = match ed25519_dalek::Signature::try_from(signature.as_slice()) {
        Ok(signature) => signature,
        Err(_) => return SignatureCheck::MalformedSignature,
    };
    let key = match ed25519_dalek::PublicKey::from_bytes(key.as_slice()) {
        Ok(key) => key,
        Err(_) => return SignatureCheck::MalformedKey,
    };
    match ed25519_dalek::Verifier::verify(&key, message.as_slice(), &signature) {
        Ok(()) => SignatureCheck::Accepted,
        Err(_) => SignatureCheck::Rejected,
    }
}

} // verus!
