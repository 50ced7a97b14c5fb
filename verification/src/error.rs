use vstd::prelude::*;

verus! {

/// Why a call was refused. A refused call leaves the ledger as it was.
#[derive(Clone, Copy, Debug, PartialEq, Eq, Structural)]
pub enum BridgeError {
    /// A deposit notification came from a contract other than the bridged token.
    UnsupportedToken,
    /// A deposit notification was sent by the transaction signer itself, not by
    /// the token contract on the signer's behalf.
    DirectCall,
    /// The declared sender of a deposit is not the transaction signer.
    SenderNotSigner,
    /// The deposit message is not a destination address followed by a chain
    /// identifier.
    MalformedMessage,
    /// The destination chain of a deposit is not registered.
    UnsupportedChain,
    /// The amount of a deposit exceeds the limit per send.
    OverLimit,
    /// The account has no storage credit entry.
    NotRegistered,
    /// The account's storage credit does not cover the requested amount.
    InsufficientCredit,
    /// The payment attached to the call does not cover the storage it pays for.
    InsufficientAttachment,
    /// The call needs an attached payment of exactly one unit.
    RequiresOneYocto,
    /// The call was given less gas than a release needs.
    InsufficientGas,
    /// The destination address of a record is not an account identifier.
    InvalidRecipient,
    /// The destination chain of a record is not this chain.
    WrongDestinationChain,
    /// The origin chain of a record is not registered.
    UnsupportedOriginChain,
    /// The record could not be serialized.
    Serialization,
    /// The record has been released already.
    DuplicateFulfillment,
    /// The signature bytes do not have the form of a signature.
    MalformedSignature,
    /// The relayer's key is not a point of the curve.
    MalformedRelayerKey,
    /// The signature is not the relayer's signature of the record.
    WrongSignature,
    /// The caller is not the owner.
    NotOwner,
    /// The chain is registered already.
    ChainAlreadyListed,
    /// The chain is not registered.
    ChainNotListed,
    /// The new owner is the current owner.
    SameOwner,
    /// The new fee is the current fee.
    SameFee,
    /// The new fee wallet is the current fee wallet.
    SameFeeWallet,
    /// The new limit is the current limit.
    SameLimit,
    /// The new relayer key is the current relayer key.
    SameRelayer,
    /// The fee numerator is not below the denominator.
    FeeTooHigh,
    /// The text is not a public key.
    InvalidRelayerKey,
    /// The key belongs to a curve other than Ed25519.
    UnsupportedCurve,
    /// The owner asked for more than the contract holds.
    AmountExceedsBalance,
    /// The withdrawal would leave the contract with less than the storage
    /// credit it owes.
    Insolvent,
    /// No record is journaled at the index.
    IndexOutOfRange,
    /// A counter or a balance would leave the range of its type.
    Overflow,
}

/// The classes of refusals.
#[derive(Clone, Copy, Debug, PartialEq, Eq, Structural)]
pub enum ErrorKind {
    /// Malformed input, a chain that is not allowed, mismatched identities.
    Validation,
    /// A bad signature, or a caller that is not the owner.
    Authorization,
    /// The account must top up its storage credit first.
    InsufficientCredit,
    /// The record has been released already.
    Replay,
    /// A setting that can never be accepted.
    Configuration,
}

/// The class a refusal belongs to.
pub open spec fn kind_of(error: BridgeError) -> ErrorKind {
    match error {
        BridgeError::NotRegistered
        | BridgeError::InsufficientCredit => ErrorKind::InsufficientCredit,
        BridgeError::WrongSignature | BridgeError::NotOwner => ErrorKind::Authorization,
        BridgeError::DuplicateFulfillment => ErrorKind::Replay,
        BridgeError::FeeTooHigh
        | BridgeError::InvalidRelayerKey
        | BridgeError::UnsupportedCurve
        | BridgeError::MalformedRelayerKey => ErrorKind::Configuration,
        _ => ErrorKind::Validation,
    }
}

impl BridgeError {
    /// The class this refusal belongs to.
    pub fn kind(&self) -> (kind: ErrorKind)
        ensures
            kind == kind_of(*self),
    {
        match self {
            BridgeError::NotRegistered
            | BridgeError::InsufficientCredit => ErrorKind::InsufficientCredit,
            BridgeError::WrongSignature | BridgeError::NotOwner => ErrorKind::Authorization,
            BridgeError::DuplicateFulfillment => ErrorKind::Replay,
            BridgeError::FeeTooHigh
            | BridgeError::InvalidRelayerKey
            | BridgeError::UnsupportedCurve
            | BridgeError::MalformedRelayerKey => ErrorKind::Configuration,
            _ => ErrorKind::Validation,
        }
    }
}

} // verus!
