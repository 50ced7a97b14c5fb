use crate::action::Action;
use crate::bridge::BridgeAssist;
use crate::bridge::price;
use crate::credit::refusal;
use crate::error::BridgeError;
use crate::model::ActionView;
use crate::model::BridgeState;
use crate::model::CallContext;
use crate::model::FEE_DENOMINATOR;
use crate::model::storage_price;
use crate::relayer::RelayerKey;
use crate::relayer::key_view;
use crate::relayer::parse_outcome;
use vstd::prelude::*;

verus! {

impl BridgeAssist {
    /// Registers a chain, for the owner, against a payment that covers the
    /// measured price of an entry. What the entry really takes is settled
    /// afterwards, with [`BridgeAssist::settle_add_chain`].
    pub fn add_chain(&mut self, ctx: &CallContext, chain: String) -> (result: Result<
        (),
        BridgeError,
    >)
        requires
            old(self).wf(),
        ensures
            final(self).wf(),
            refusal(result) == old(self)@.add_chain_refusal(ctx@, chain@),
            result is Ok ==> final(self)@ == (BridgeState {
                available_chains: old(self)@.available_chains.push(chain@),
                ..old(self)@
            }),
            result is Err ==> final(self)@ == old(self)@,
    {
        if !(ctx.predecessor == self.owner) {
            return Err(BridgeError::NotOwner);
        }
        if self.available_chains.contains(&chain) {
            return Err(BridgeError::ChainAlreadyListed);
        }
        if ctx.attached_deposit < price(self.costs.add_chain) {
            return Err(BridgeError::InsufficientAttachment);
        }
        self.available_chains.insert(&chain);
        Ok(())
    }

    /// Settles the registration of a chain once the bytes that its entry
    /// takes are known. If the payment attached to the call does not cover
    /// them, the chain is taken off the list again and the call is refused.
    pub fn settle_add_chain(
        &mut self,
        ctx: &CallContext,
        chain: String,
        bytes_added: u64,
    ) -> (result: Result<(), BridgeError>)
        requires
            old(self).wf(),
        ensures
            final(self).wf(),
            refusal(result) == BridgeState::settle_refusal(ctx@, bytes_added),
            result is Ok ==> final(self)@ == old(self)@,
            result is Err ==> final(self)@ == (if old(self)@.available_chains.contains(chain@) {
                old(self)@.chain_removed(chain@)
            } else {
                old(self)@
            }),
    {
        if ctx.attached_deposit < price(bytes_added) {
            self.available_chains.remove(&chain);
            Err(BridgeError::InsufficientAttachment)
        } else {
            Ok(())
        }
    }

    /// Takes a chain off the list, for the owner.
    pub fn remove_chain(&mut self, ctx: &CallContext, chain: String) -> (result: Result<
        (),
        BridgeError,
    >)
        requires
            old(self).wf(),
        ensures
            final(self).wf(),
            refusal(result) == old(self)@.remove_chain_refusal(ctx@, chain@),
            result is Ok ==> final(self)@ == old(self)@.chain_removed(chain@),
            result is Ok ==> !final(self)@.available_chains.contains(chain@),
            result is Err ==> final(self)@ == old(self)@,
    {
        if !(ctx.predecessor == self.owner) {
            return Err(BridgeError::NotOwner);
        }
        if !self.available_chains.remove(&chain) {
            return Err(BridgeError::ChainNotListed);
        }
        Ok(())
    }

    /// The repayment for the bytes that the removal of a chain set free: their
    /// price, paid to the caller.
    pub fn refund_freed_storage(&self, ctx: &CallContext, bytes_freed: u64) -> (action: Action)
        ensures
            action@ == (ActionView::TransferNative {
                to: ctx@.predecessor,
                amount: storage_price(bytes_freed),
            }),
    {
        Action::TransferNative { to: ctx.predecessor.clone(), amount: price(bytes_freed) }
    }

    /// Hands the ledger over to a new owner.
    pub fn transfer_ownership(&mut self, ctx: &CallContext, owner: String) -> (result: Result<
        (),
        BridgeError,
    >)
        requires
            old(self).wf(),
        ensures
            final(self).wf(),
            refusal(result) == old(self)@.transfer_ownership_refusal(ctx@, owner@),
            result is Ok ==> final(self)@ == (BridgeState { owner: owner@, ..old(self)@ }),
            result is Err ==> final(self)@ == old(self)@,
    {
        if !(ctx.predecessor == self.owner) {
            return Err(BridgeError::NotOwner);
        }
        if owner == self.owner {
            return Err(BridgeError::SameOwner);
        }
        self.owner = owner;
        Ok(())
    }

    /// Sets the fee numerator, for the owner. The fee ratio stays below one.
    pub fn set_fee_numerator(&mut self, ctx: &CallContext, fee_numerator: u16) -> (result: Result<
        (),
        BridgeError,
    >)
        requires
            old(self).wf(),
        ensures
            final(self).wf(),
            refusal(result) == old(self)@.set_fee_refusal(ctx@, fee_numerator),
            result is Ok ==> final(self)@ == (BridgeState { fee_numerator, ..old(self)@ }),
            result is Err ==> final(self)@ == old(self)@,
    {
        if !(ctx.predecessor == self.owner) {
            return Err(BridgeError::NotOwner);
        }
        if fee_numerator == self.fee_numerator {
            return Err(BridgeError::SameFee);
        }
        if fee_numerator >= FEE_DENOMINATOR {
            return Err(BridgeError::FeeTooHigh);
        }
        self.fee_numerator = fee_numerator;
        Ok(())
    }

    /// Sets the wallet that fees are paid to, for the owner.
    pub fn set_fee_wallet(&mut self, ctx: &CallContext, fee_wallet: String) -> (result: Result<
        (),
        BridgeError,
    >)
        requires
            old(self).wf(),
        ensures
            final(self).wf(),
            refusal(result) == old(self)@.set_fee_wallet_refusal(ctx@, fee_wallet@),
            result is Ok ==> final(self)@ == (BridgeState {
                fee_wallet: fee_wallet@,
                ..old(self)@
            }),
            result is Err ==> final(self)@ == old(self)@,
    {
        if !(ctx.predecessor == self.owner) {
            return Err(BridgeError::NotOwner);
        }
        if fee_wallet == self.fee_wallet {
            return Err(BridgeError::SameFeeWallet);
        }
        self.fee_wallet = fee_wallet;
        Ok(())
    }

    /// Sets the largest amount that one deposit may escrow, for the owner.
    pub fn set_limit_per_send(&mut self, ctx: &CallContext, limit_per_send: u128) -> (result:
        Result<(), BridgeError>)
        requires
            old(self).wf(),
        ensures
            final(self).wf(),
            refusal(result) == old(self)@.set_limit_refusal(ctx@, limit_per_send),
            result is Ok ==> final(self)@ == (BridgeState { limit_per_send, ..old(self)@ }),
            result is Err ==> final(self)@ == old(self)@,
    {
        if !(ctx.predecessor == self.owner) {
            return Err(BridgeError::NotOwner);
        }
        if limit_per_send == self.limit_per_send {
            return Err(BridgeError::SameLimit);
        }
        self.limit_per_send = limit_per_send;
        Ok(())
    }

    /// Replaces the relayer's key, for the owner, given what the text of the
    /// new key was read as.
    pub fn set_relayer_key(
        &mut self,
        ctx: &CallContext,
        parsed: Result<RelayerKey, BridgeError>,
    ) -> (result: Result<(), BridgeError>)
        requires
            old(self).wf(),
            parsed is Ok ==> parsed->Ok_0.wf(),
        ensures
            final(self).wf(),
            refusal(result) == old(self)@.set_relayer_refusal_given(ctx@, key_view(parsed)),
            result is Ok ==> final(self)@ == (BridgeState {
                relayer_role: parsed->Ok_0@,
                ..old(self)@
            }),
            result is Err ==> final(self)@ == old(self)@,
    {
        if !(ctx.predecessor == self.owner) {
            return Err(BridgeError::NotOwner);
        }
        match parsed {
            Err(error) => Err(error),
            Ok(key) => {
                if key.same_as(&self.relayer_role) {
                    return Err(BridgeError::SameRelayer);
                }
                self.relayer_role = key;
                Ok(())
            },
        }
    }

    /// Replaces the relayer's key, for the owner. The key is given as text;
    /// only an Ed25519 key is accepted.
    pub fn set_relayer_role(&mut self, ctx: &CallContext, relayer: String) -> (result: Result<
        (),
        BridgeError,
    >)
        requires
            old(self).wf(),
        ensures
            final(self).wf(),
            refusal(result) == old(self)@.set_relayer_refusal(ctx@, relayer@),
            result is Ok ==> final(self)@ == (BridgeState {
                relayer_role: parse_outcome(relayer@)->Ok_0,
                ..old(self)@
            }),
            result is Err ==> final(self)@ == old(self)@,
    {
        let parsed = RelayerKey::parse(&relayer);
        self.set_relayer_key(ctx, parsed)
    }

    /// The transfer of `amount` of the escrowed token to the owner.
    pub fn withdraw(&self, ctx: &CallContext, amount: u128) -> (result: Result<Action, BridgeError>)
        ensures
            refusal(result) == self@.withdraw_refusal(ctx@),
            result is Ok ==> result->Ok_0@ == (ActionView::TransferToken {
                token: self@.token,
                to: self@.owner,
                amount,
            }),
    {
        if ctx.attached_deposit != 1 {
            return Err(BridgeError::RequiresOneYocto);
        }
        if !(ctx.predecessor == self.owner) {
            return Err(BridgeError::NotOwner);
        }
        Ok(Action::TransferToken { token: self.token.clone(), to: self.owner.clone(), amount })
    }

    /// The transfer of `amount` of the native currency to the owner. What
    /// stays on the contract's account must cover all storage credit.
    pub fn withdraw_native_fee(&self, ctx: &CallContext, amount: u128) -> (result: Result<
        Action,
        BridgeError,
    >)
        ensures
            refusal(result) == self@.withdraw_native_refusal(ctx@, amount),
            result is Ok ==> result->Ok_0@ == (ActionView::TransferNative {
                to: self@.owner,
                amount,
            }),
            result is Ok ==> ctx.account_balance - amount >= self@.total_storage_paid,
    {
        if ctx.attached_deposit != 1 {
            return Err(BridgeError::RequiresOneYocto);
        }
        if !(ctx.predecessor == self.owner) {
            return Err(BridgeError::NotOwner);
        }
        if amount > ctx.account_balance {
            return Err(BridgeError::AmountExceedsBalance);
        }
        if ctx.account_balance - amount < self.storage_paid.total_credit() {
            return Err(BridgeError::Insolvent);
        }
        Ok(Action::TransferNative { to: self.owner.clone(), amount })
    }
}

} // verus!
