use crate::action::Action;
use crate::bridge::BridgeAssist;
use crate::bridge::price;
use crate::credit::debit_refusal;
use crate::credit::refusal;
use crate::error::BridgeError;
use crate::message::split_message;
use crate::model::ActionView;
use crate::model::CURRENT_CHAIN;
use crate::model::CallContext;
use crate::model::NANOS_PER_SECOND;
use crate::record::Transaction;
use vstd::prelude::*;

verus! {

impl BridgeAssist {
    /// Takes note of a deposit: the token contract reports that `sender_id`
    /// transferred `amount` to the bridge, with a message that names the
    /// destination address and chain. An accepted deposit is journaled and
    /// kept in full: the amount handed back to the sender is zero.
    pub fn ft_on_transfer(
        &mut self,
        ctx: &CallContext,
        sender_id: String,
        amount: u128,
        msg: String,
    ) -> (result: Result<u128, BridgeError>)
        requires
            old(self).wf(),
        ensures
            final(self).wf(),
            refusal(result) == old(self)@.transfer_refusal(ctx@, sender_id@, amount, msg@),
            result is Ok ==> result->Ok_0 == 0 && final(self)@ == old(self)@.transfer_applied(
                ctx@,
                sender_id@,
                amount,
                msg@,
            ),
            result is Err ==> final(self)@ == old(self)@,
    {
        if !(ctx.predecessor == self.token) {
            return Err(BridgeError::UnsupportedToken);
        }
        if ctx.predecessor == ctx.signer {
            return Err(BridgeError::DirectCall);
        }
        if !(sender_id == ctx.signer) {
            return Err(BridgeError::SenderNotSigner);
        }
        let (eth_address, chain) = match split_message(&msg) {
            Some(parts) => parts,
            None => {
                return Err(BridgeError::MalformedMessage);
            },
        };
        if !self.available_chains.contains(&chain) {
            return Err(BridgeError::UnsupportedChain);
        }
        let cost: u128 = price(self.costs.ft_on_transfer);
        match self.storage_paid.get(&sender_id) {
            None => {
                return Err(BridgeError::NotRegistered);
            },
            Some(credit) => {
                if credit < cost {
                    return Err(BridgeError::InsufficientCredit);
                }
            },
        }
        if amount > self.limit_per_send {
            return Err(BridgeError::OverLimit);
        }
        if self.nonce == u128::MAX {
            return Err(BridgeError::Overflow);
        }
        let record = Transaction {
            from_user: sender_id.clone(),
            to_user: eth_address,
            amount,
            timestamp: ctx.block_timestamp / NANOS_PER_SECOND,
            from_chain: CURRENT_CHAIN.to_owned(),
            to_chain: chain,
            nonce: self.nonce,
        };
        let charged = self.storage_paid.debit(&sender_id, cost);
        self.transactions.append(&sender_id, record);
        self.nonce = self.nonce + 1;
        Ok(0)
    }

    /// Takes the payment attached to the call as storage credit of the
    /// caller. A caller without an entry pays for the entry out of it.
    pub fn storage_deposit(&mut self, ctx: &CallContext) -> (result: Result<(), BridgeError>)
        requires
            old(self).wf(),
        ensures
            final(self).wf(),
            refusal(result) == old(self)@.storage_deposit_refusal(ctx@),
            result is Ok ==> final(self)@ == old(self)@.storage_deposit_applied(ctx@),
            result is Err ==> final(self)@ == old(self)@,
    {
        let cost: u128 = price(self.costs.register);
        self.storage_paid.deposit(&ctx.predecessor, ctx.attached_deposit, cost)
    }

    /// Takes `amount` out of the caller's storage credit and has it paid out
    /// to the caller.
    pub fn storage_withdraw(&mut self, ctx: &CallContext, amount: u128) -> (result: Result<
        Action,
        BridgeError,
    >)
        requires
            old(self).wf(),
        ensures
            final(self).wf(),
            refusal(result) == debit_refusal(
                old(self)@.storage_paid,
                ctx@.predecessor,
                amount,
            ),
            result is Ok ==> final(self)@ == old(self)@.charged(ctx@.predecessor, amount)
                && result->Ok_0@ == (ActionView::TransferNative {
                to: ctx@.predecessor,
                amount,
            }),
            result is Err ==> final(self)@ == old(self)@,
    {
        match self.storage_paid.withdraw(&ctx.predecessor, amount) {
            Err(error) => Err(error),
            Ok(()) => Ok(Action::TransferNative { to: ctx.predecessor.clone(), amount }),
        }
    }
}

} // verus!
