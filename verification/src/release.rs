use crate::action::Action;
use crate::action::Attestation;
use crate::action::Pending;
use crate::bridge::BridgeAssist;
use crate::bridge::compute_fee;
use crate::bridge::price;
use crate::codec::hex_encode;
use crate::codec::serialize_record;
use crate::credit::refusal;
use crate::crypto::SignatureCheck;
use crate::crypto::keccak256;
use crate::error::BridgeError;
use crate::model::CURRENT_CHAIN;
use crate::model::CallContext;
use crate::model::GAS_FOR_FULFILL;
use crate::model::MIN_TOKEN_STORAGE_DEPOSIT;
use crate::model::PromiseError;
use crate::model::PromiseResult;
use crate::model::StorageBalance;
use crate::model::fee_wallet_eligible;
use crate::model::pending_of;
use crate::model::record_id;
use crate::near::is_valid_account_id;
use crate::record::Transaction;
use vstd::prelude::*;

verus! {

impl BridgeAssist {
    /// Undoes a release that could not be completed: takes the mark off the
    /// record and gives the recipient back what the release cost.
    pub fn rollback_state(&mut self, tx_hash: &String, to_user: String, storage_paid_for_call: u128)
        -> (result: Result<(), BridgeError>)
        requires
            old(self).wf(),
        ensures
            final(self).wf(),
            refusal(result) == old(self)@.rollback_refusal(to_user@, storage_paid_for_call),
            result is Ok ==> final(self)@ == old(self)@.rolled_back(
                tx_hash@,
                to_user@,
                storage_paid_for_call,
            ),
            result is Err ==> final(self)@ == old(self)@,
    {
        match self.storage_paid.credit(&to_user, storage_paid_for_call) {
            Err(error) => Err(error),
            Ok(()) => {
                self.fulfilled.remove(tx_hash);
                Ok(())
            },
        }
    }

    /// Finds out what the decision on a release request rests on: whether
    /// the recipient is an account identifier, the record's hash, and whether
    /// the signature is the relayer's signature of that hash.
    pub fn attest(&self, transaction: &Transaction, signature: &Vec<u8>) -> (found: Attestation)
        requires
            self.wf(),
        ensures
            found@ == self@.attestation(transaction@, signature@),
    {
        let recipient_valid = is_valid_account_id(&transaction.to_user);
        match serialize_record(transaction) {
            None => Attestation {
                recipient_valid,
                tx_hash: None,
                signature: SignatureCheck::Rejected,
            },
            Some(bytes) => {
                let hash = keccak256(&bytes);
                Attestation {
                    recipient_valid,
                    tx_hash: Some(hex_encode(&hash)),
                    signature: self.relayer_role.check(&hash, signature),
                }
            },
        }
    }

    /// The transfer of the principal of a release to the recipient: the
    /// amount of the record less the fee.
    pub fn dispense_ft_to_user(
        &self,
        transaction: &Transaction,
        tx_hash: &String,
        current_fee: u128,
        to_user: String,
        storage_paid_for_call: u128,
    ) -> (result: Result<Action, BridgeError>)
        ensures
            refusal(result) == self@.dispense_refusal(
                pending_of(transaction@, tx_hash@, current_fee, to_user@, storage_paid_for_call),
            ),
            result is Ok ==> result->Ok_0@ == self@.dispense_action(
                pending_of(transaction@, tx_hash@, current_fee, to_user@, storage_paid_for_call),
            ),
    {
        if current_fee > transaction.amount {
            return Err(BridgeError::Overflow);
        }
        Ok(
            Action::Dispense {
                token: self.token.clone(),
                amount: transaction.amount - current_fee,
                pending: Pending {
                    transaction: transaction.clone(),
                    tx_hash: tx_hash.clone(),
                    to_user,
                    current_fee,
                    storage_paid_for_call,
                },
            },
        )
    }

    /// Decides on a release request, given what was found out about it. An
    /// accepted request is paid for by the recipient and marks the record as
    /// released, before anything is transferred.
    pub fn fulfill_attested(
        &mut self,
        ctx: &CallContext,
        transaction: Transaction,
        found: Attestation,
    ) -> (result: Result<Action, BridgeError>)
        requires
            old(self).wf(),
        ensures
            final(self).wf(),
            refusal(result) == old(self)@.fulfill_refusal_given(ctx@, transaction@, found@),
            result is Ok ==> final(self)@ == old(self)@.fulfill_applied(
                transaction@,
                found@.tx_hash->Some_0,
            ) && result->Ok_0@ == old(self)@.fulfill_action(transaction@, found@.tx_hash->Some_0),
            result is Err ==> final(self)@ == old(self)@,
    {
        if ctx.attached_deposit != 1 {
            return Err(BridgeError::RequiresOneYocto);
        }
        if ctx.prepaid_gas < GAS_FOR_FULFILL {
            return Err(BridgeError::InsufficientGas);
        }
        if !found.recipient_valid {
            return Err(BridgeError::InvalidRecipient);
        }
        let current_chain: String = CURRENT_CHAIN.to_owned();
        if !(transaction.to_chain == current_chain) {
            return Err(BridgeError::WrongDestinationChain);
        }
        if !self.available_chains.contains(&transaction.from_chain) {
            return Err(BridgeError::UnsupportedOriginChain);
        }
        let cost: u128 = price(self.costs.fulfill);
        match self.storage_paid.get(&transaction.to_user) {
            None => {
                return Err(BridgeError::NotRegistered);
            },
            Some(credit) => {
                if credit < cost {
                    return Err(BridgeError::InsufficientCredit);
                }
            },
        }
        let tx_hash: String = match found.tx_hash {
            None => {
                return Err(BridgeError::Serialization);
            },
            Some(tx_hash) => tx_hash,
        };
        if self.fulfilled.contains(&tx_hash) {
            return Err(BridgeError::DuplicateFulfillment);
        }
        match found.signature {
            SignatureCheck::MalformedSignature => {
                return Err(BridgeError::MalformedSignature);
            },
            SignatureCheck::MalformedKey => {
                return Err(BridgeError::MalformedRelayerKey);
            },
            SignatureCheck::Rejected => {
                return Err(BridgeError::WrongSignature);
            },
            SignatureCheck::Accepted => {},
        }
        let to_user: String = transaction.to_user.clone();
        let charged = self.storage_paid.debit(&to_user, cost);
        self.fulfilled.insert(&tx_hash);
        let current_fee: u128 = compute_fee(transaction.amount, self.fee_numerator);
        if current_fee != 0 {
            Ok(
                Action::QueryFeeWallet {
                    token: self.token.clone(),
                    fee_wallet: self.fee_wallet.clone(),
                    pending: Pending {
                        transaction,
                        tx_hash,
                        to_user,
                        current_fee,
                        storage_paid_for_call: cost,
                    },
                },
            )
        } else {
            self.dispense_ft_to_user(&transaction, &tx_hash, current_fee, to_user, cost)
        }
    }

    /// Decides on a release request: a record of a deposit made on the
    /// paired chain, with the relayer's signature of its hash.
    pub fn fulfill(
        &mut self,
        ctx: &CallContext,
        transaction: Transaction,
        signature: Vec<u8>,
    ) -> (result: Result<Action, BridgeError>)
        requires
            old(self).wf(),
        ensures
            final(self).wf(),
            refusal(result) == old(self)@.fulfill_refusal(ctx@, transaction@, signature@),
            result is Ok ==> final(self)@ == old(self)@.fulfill_applied(
                transaction@,
                record_id(transaction@)->Some_0,
            ) && result->Ok_0@ == old(self)@.fulfill_action(
                transaction@,
                record_id(transaction@)->Some_0,
            ),
            result is Err ==> final(self)@ == old(self)@,
    {
        let found = self.attest(&transaction, &signature);
        self.fulfill_attested(ctx, transaction, found)
    }

    /// Resumes a release with the answer to the fee wallet query. A wallet
    /// that cannot receive the fee has the release rolled back; else the
    /// principal is transferred.
    pub fn resolve_fulfill(
        &mut self,
        callback_result: Result<Option<StorageBalance>, PromiseError>,
        current_fee: u128,
        transaction: &Transaction,
        tx_hash: &String,
        to_user: String,
        storage_paid_for_call: u128,
    ) -> (result: Result<Action, BridgeError>)
        requires
            old(self).wf(),
        ensures
            final(self).wf(),
            refusal(result) == old(self)@.resolve_fulfill_refusal(
                fee_wallet_eligible(callback_result),
                pending_of(transaction@, tx_hash@, current_fee, to_user@, storage_paid_for_call),
            ),
            result is Ok ==> final(self)@ == old(self)@.resolve_fulfill_applied(
                fee_wallet_eligible(callback_result),
                pending_of(transaction@, tx_hash@, current_fee, to_user@, storage_paid_for_call),
            ) && result->Ok_0@ == old(self)@.resolve_fulfill_action(
                fee_wallet_eligible(callback_result),
                pending_of(transaction@, tx_hash@, current_fee, to_user@, storage_paid_for_call),
            ),
            result is Err ==> final(self)@ == old(self)@,
    {
        let eligible: bool = match callback_result {
            Ok(Some(balance)) => balance.total >= MIN_TOKEN_STORAGE_DEPOSIT,
            _ => false,
        };
        if !eligible {
            match self.rollback_state(tx_hash, to_user, storage_paid_for_call) {
                Err(error) => Err(error),
                Ok(()) => Ok(Action::Done),
            }
        } else {
            self.dispense_ft_to_user(
                transaction,
                tx_hash,
                current_fee,
                to_user,
                storage_paid_for_call,
            )
        }
    }

    /// Resumes a release with the outcome of the transfer of the principal.
    /// A failed transfer has the release rolled back. After a successful one
    /// the record is journaled for the account that made the deposit, and the
    /// fee, if there is one, is paid out without waiting for the outcome.
    pub fn resolve_dispense(
        &mut self,
        outcome: PromiseResult,
        tx_hash: &String,
        tx: &Transaction,
        to_user: String,
        fee: u128,
        storage_paid_for_call: u128,
    ) -> (result: Result<Action, BridgeError>)
        requires
            old(self).wf(),
        ensures
            final(self).wf(),
            refusal(result) == old(self)@.resolve_dispense_refusal(
                outcome,
                pending_of(tx@, tx_hash@, fee, to_user@, storage_paid_for_call),
            ),
            result is Ok ==> final(self)@ == old(self)@.resolve_dispense_applied(
                outcome,
                pending_of(tx@, tx_hash@, fee, to_user@, storage_paid_for_call),
            ) && result->Ok_0@ == old(self)@.resolve_dispense_action(
                outcome,
                pending_of(tx@, tx_hash@, fee, to_user@, storage_paid_for_call),
            ),
            result is Err ==> final(self)@ == old(self)@,
    {
        match outcome {
            PromiseResult::Failed => {
                match self.rollback_state(tx_hash, to_user, storage_paid_for_call) {
                    Err(error) => Err(error),
                    Ok(()) => Ok(Action::Done),
                }
            },
            PromiseResult::Successful => {
                self.transactions.append(&tx.from_user, tx.clone());
                if fee != 0 {
                    Ok(
                        Action::PayFee {
                            token: self.token.clone(),
                            fee_wallet: self.fee_wallet.clone(),
                            amount: fee,
                        },
                    )
                } else {
                    Ok(Action::Done)
                }
            },
        }
    }
}

} // verus!
