use crate::crypto::ed25519_check;
use crate::crypto::signature_check;
use crate::crypto::SignatureCheck;
use crate::error::BridgeError;
use crate::near::near_public_key;
use crate::near::parse_public_key;
use vstd::prelude::*;

verus! {

/// Number of bytes of a stored Ed25519 key: the curve tag and 32 key bytes.
pub const ED25519_KEY_LENGTH: usize = 33;

/// Whether stored key bytes are those of an Ed25519 key: the tag 0, followed
/// by 32 key bytes.
pub open spec fn is_ed25519(data: Seq<u8>) -> bool {
    data.len() == 33 && data[0] == 0
}

/// The key bytes proper, without the curve tag.
pub open spec fn raw_key(data: Seq<u8>) -> Seq<u8> {
    data.subrange(1, data.len() as int)
}

/// What a text yields as a relayer key: the stored bytes of an Ed25519 key, or
/// the reason it is refused.
pub open spec fn parse_outcome(text: Seq<char>) -> Result<Seq<u8>, BridgeError> {
    match near_public_key(text) {
        None => Err(BridgeError::InvalidRelayerKey),
        Some(data) => if is_ed25519(data) {
            Ok(data)
        } else {
            Err(BridgeError::UnsupportedCurve)
        },
    }
}

/// The contents of a parsed key or its refusal.
pub open spec fn key_view(result: Result<RelayerKey, BridgeError>) -> Result<
    Seq<u8>,
    BridgeError,
> {
    match result {
        Ok(key) => Ok(key@),
        Err(error) => Err(error),
    }
}

/// The public key of the relayer, the one signer whose attestations release
/// funds. Only Ed25519 keys exist as values of this type.
#[derive(Debug)]
pub struct RelayerKey {
    data: Vec<u8>,
}

impl View for RelayerKey {
    type V = Seq<u8>;

    /// The stored bytes: the curve tag, then the key.
    closed spec fn view(&self) -> Seq<u8> {
        self.data@
    }
}

impl Clone for RelayerKey {
    fn clone(&self) -> (copy: Self)
        ensures
            copy@ == self@,
    {
        RelayerKey { data: self.data.clone() }
    }
}

impl RelayerKey {
    /// The key is valid: it is an Ed25519 key.
    pub open spec fn wf(&self) -> bool {
        is_ed25519(self@)
    }

    /// Reads a key from its text form, a curve name and the key in base 58.
    /// Keys of any curve but Ed25519 are refused.
    pub fn parse(text: &String) -> (result: Result<RelayerKey, BridgeError>)
        ensures
            key_view(result) == parse_outcome(text@),
            result is Ok ==> result->Ok_0.wf(),
    {
        Self::from_parsed(parse_public_key(text))
    }

    /// Accepts the bytes of a parsed public key as a relayer key, if they are
    /// those of an Ed25519 key. `None` stands for a text that did not parse.
    pub fn from_parsed(parsed: Option<Vec<u8>>) -> (result: Result<RelayerKey, BridgeError>)
        ensures
            key_view(result) == (match parsed {
                None => Err(BridgeError::InvalidRelayerKey),
                Some(data) => if is_ed25519(data@) {
                    Ok(data@)
                } else {
                    Err(BridgeError::UnsupportedCurve)
                },
            }),
            result is Ok ==> result->Ok_0.wf(),
    {
        match parsed {
            None => Err(BridgeError::InvalidRelayerKey),
            Some(data) => {
                if data.len() == ED25519_KEY_LENGTH && data[0] == 0 {
                    Ok(RelayerKey { data })
                } else {
                    Err(BridgeError::UnsupportedCurve)
                }
            },
        }
    }

    /// The stored bytes: the curve tag, then the key.
    pub fn to_bytes(&self) -> (data: Vec<u8>)
        ensures
            data@ == self@,
    {
        self.data.clone()
    }

    /// Whether two keys are the same.
    pub fn same_as(&self, other: &RelayerKey) -> (same: bool)
        ensures
            same == (self@ == other@),
    {
        if self.data.len() != other.data.len() {
            return false;
        }
        let mut i: usize = 0;
        while i < self.data.len()
            invariant
                i <= self.data.len(),
                self.data.len() == other.data.len(),
                forall|j: int| 0 <= j < i ==> self.data[j] == other.data[j],
            decreases self.data.len() - i,
        {
            if self.data[i] != other.data[i] {
                return false;
            }
            i += 1;
        }
        assert(self@ =~= other@);
        true
    }

    /// Checks a signature of a message against this key.
    pub fn check(&self, message: &Vec<u8>, signature: &Vec<u8>) -> (outcome: SignatureCheck)
        requires
            self.wf(),
        ensures
            outcome == signature_check(raw_key(self@), message@, signature@),
    {
        let mut key: Vec<u8> = Vec::new();
        let mut i: usize = 1;
        while i < self.data.len()
            invariant
                1 <= i <= self.data.len(),
                key@ == self.data@.subrange(1, i as int),
            decreases self.data.len() - i,
        {
            key.push(self.data[i]);
            assert(self.data@.subrange(1, i as int).push(self.data@[i as int])
                =~= self.data@.subrange(1, i + 1));
            i += 1;
        }
        ed25519_check(&key, message, signature)
    }

    /// Whether the signature is this key's signature of the message.
    pub fn verify(&self, message: &Vec<u8>, signature: &Vec<u8>) -> (valid: bool)
        requires
            self.wf(),
        ensures
            valid == (signature_check(raw_key(self@), message@, signature@)
                == SignatureCheck::Accepted),
    {
        self.check(message, signature) == SignatureCheck::Accepted
    }
}

} // verus!
