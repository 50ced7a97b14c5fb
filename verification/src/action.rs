use crate::crypto::SignatureCheck;
use crate::model::ActionView;
use crate::model::AttestationView;
use crate::model::PendingView;
use crate::record::Transaction;
use vstd::prelude::*;

verus! {

/// The data of a release in flight, handed from stage to stage: what a later
/// stage needs to complete the release or to undo it.
#[derive(Debug)]
pub struct Pending {
    /// The record that is being released.
    pub transaction: Transaction,
    /// The record's hash in hexadecimal, its mark in the replay set.
    pub tx_hash: String,
    /// The recipient.
    pub to_user: String,
    /// The fee withheld from the amount.
    pub current_fee: u128,
    /// What the recipient paid for the release, to be returned if it fails.
    pub storage_paid_for_call: u128,
}

impl View for Pending {
    type V = PendingView;

    open spec fn view(&self) -> PendingView {
        PendingView {
            transaction: self.transaction@,
            tx_hash: self.tx_hash@,
            to_user: self.to_user@,
            current_fee: self.current_fee,
            storage_paid_for_call: self.storage_paid_for_call,
        }
    }
}

/// What the caller is to do after a call that was accepted.
#[derive(Debug)]
pub enum Action {
    /// Nothing.
    Done,
    /// Ask `token` for the storage balance of `fee_wallet`, then resume the
    /// release with the answer.
    QueryFeeWallet { token: String, fee_wallet: String, pending: Pending },
    /// Transfer `amount` of `token` to the recipient, then resume the release
    /// with the outcome.
    Dispense { token: String, amount: u128, pending: Pending },
    /// Transfer the fee to the fee wallet; the outcome is not awaited.
    PayFee { token: String, fee_wallet: String, amount: u128 },
    /// Transfer `amount` of `token` to `to`.
    TransferToken { token: String, to: String, amount: u128 },
    /// Transfer `amount` of the native currency to `to`.
    TransferNative { to: String, amount: u128 },
}

impl View for Action {
    type V = ActionView;

    open spec fn view(&self) -> ActionView {
        match self {
            Action::Done => ActionView::Done,
            Action::QueryFeeWallet { token, fee_wallet, pending } => ActionView::QueryFeeWallet {
                token: token@,
                fee_wallet: fee_wallet@,
                pending: pending@,
            },
            Action::Dispense { token, amount, pending } => ActionView::Dispense {
                token: token@,
                amount: *amount,
                pending: pending@,
            },
            Action::PayFee { token, fee_wallet, amount } => ActionView::PayFee {
                token: token@,
                fee_wallet: fee_wallet@,
                amount: *amount,
            },
            Action::TransferToken { token, to, amount } => ActionView::TransferToken {
                token: token@,
                to: to@,
                amount: *amount,
            },
            Action::TransferNative { to, amount } => ActionView::TransferNative {
                to: to@,
                amount: *amount,
            },
        }
    }
}

/// What was found out about a release request before the ledger decides on it.
#[derive(Debug)]
pub struct Attestation {
    /// Whether the record's destination address is an account identifier.
    pub recipient_valid: bool,
    /// The record's hash in hexadecimal; `None` if the record could not be
    /// serialized.
    pub tx_hash: Option<String>,
    /// How the check of the signature over the hash ended.
    pub signature: SignatureCheck,
}

impl View for Attestation {
    type V = AttestationView;

    open spec fn view(&self) -> AttestationView {
        AttestationView {
            recipient_valid: self.recipient_valid,
            tx_hash: match self.tx_hash {
                Some(hash) => Some(hash@),
                None => None,
            },
            signature: self.signature,
        }
    }
}

} // verus!
