use crate::credit::debit_refusal;
use crate::error::kind_of;
use crate::error::BridgeError;
use crate::error::ErrorKind;
use crate::journal::log_of;
use crate::keys::lemma_index_of_unique;
use crate::keys::lemma_push_distinct;
use crate::model::fee_of;
use crate::model::record_id;
use crate::model::storage_price;
use crate::model::BridgeState;
use crate::model::CallContextView;
use crate::model::PendingView;
use crate::model::Probe;
use crate::model::PromiseResult;
use crate::model::CURRENT_CHAIN;
use crate::model::FEE_DENOMINATOR;
use crate::model::GAS_FOR_FULFILL;
use crate::model::PROBE_ACCOUNT;
use crate::model::PROBE_CHAIN;
use crate::near::account_id_valid;
use crate::record::TransactionView;
use crate::sums::lemma_sum_bounds_entry;
use crate::sums::lemma_sum_insert;
use vstd::arithmetic::div_mod::lemma_fundamental_div_mod;
use vstd::prelude::*;

verus! {

/// Taking credit out of an account that holds enough keeps the running total
/// equal to the sum of all credit.
pub proof fn law_charge_keeps_total(state: BridgeState, account: Seq<char>, cost: u128)
    requires
        state.inv(),
        debit_refusal(state.storage_paid, account, cost) is None,
    ensures
        state.charged(account, cost).inv(),
        state.charged(account, cost).total_storage_paid == state.total_storage_paid - cost,
        state.charged(account, cost).storage_paid[account] == state.storage_paid[account] - cost,
{
    lemma_sum_bounds_entry(state.storage_paid, account);
    lemma_sum_insert(state.storage_paid, account, (state.storage_paid[account] - cost) as u128);
}

/// Granting credit to a registered account, where the total stays in range,
/// keeps the running total equal to the sum of all credit.
pub proof fn law_grant_keeps_total(state: BridgeState, account: Seq<char>, amount: u128)
    requires
        state.inv(),
        state.rollback_refusal(account, amount) is None,
    ensures
        state.granted(account, amount).inv(),
        state.granted(account, amount).total_storage_paid == state.total_storage_paid + amount,
        state.granted(account, amount).storage_paid[account] == state.storage_paid[account]
            + amount,
{
    lemma_sum_bounds_entry(state.storage_paid, account);
    lemma_sum_insert(state.storage_paid, account, (state.storage_paid[account] + amount) as u128);
}

/// An accepted payment for storage credit keeps the running total equal to
/// the sum of all credit.
pub proof fn law_storage_deposit_keeps_total(state: BridgeState, ctx: CallContextView)
    requires
        state.inv(),
        state.storage_deposit_refusal(ctx) is None,
    ensures
        state.storage_deposit_applied(ctx).inv(),
{
    let account = ctx.predecessor;
    if state.storage_paid.dom().contains(account) {
        lemma_sum_bounds_entry(state.storage_paid, account);
        lemma_sum_insert(
            state.storage_paid,
            account,
            (state.storage_paid[account] + ctx.attached_deposit) as u128,
        );
    } else {
        lemma_sum_insert(
            state.storage_paid,
            account,
            (ctx.attached_deposit - storage_price(state.costs.register)) as u128,
        );
    }
}

/// Every accepted deposit moves the deposit counter on by exactly one and
/// makes the sender's history longer by exactly one record, the record of
/// this deposit; the state stays valid.
pub proof fn law_deposit_advances_counter_and_history(
    state: BridgeState,
    ctx: CallContextView,
    sender_id: Seq<char>,
    amount: u128,
    msg: Seq<char>,
)
    requires
        state.inv(),
        state.transfer_refusal(ctx, sender_id, amount, msg) is None,
    ensures
        state.transfer_applied(ctx, sender_id, amount, msg).nonce == state.nonce + 1,
        log_of(state.transfer_applied(ctx, sender_id, amount, msg).transactions, sender_id).len()
            == log_of(state.transactions, sender_id).len() + 1,
        log_of(state.transfer_applied(ctx, sender_id, amount, msg).transactions, sender_id).last()
            == state.transfer_record(ctx, sender_id, amount, msg),
        log_of(
            state.transfer_applied(ctx, sender_id, amount, msg).transactions,
            sender_id,
        ).drop_last() == log_of(state.transactions, sender_id),
        state.transfer_applied(ctx, sender_id, amount, msg).inv(),
{
    law_charge_keeps_total(state, sender_id, storage_price(state.costs.ft_on_transfer));
    let after = state.transfer_applied(ctx, sender_id, amount, msg);
    assert(log_of(after.transactions, sender_id).drop_last() =~= log_of(
        state.transactions,
        sender_id,
    ));
}

/// An accepted release request leaves the state valid, with the record
/// marked as released and the recipient charged the price of a release.
pub proof fn law_release_marks_and_charges(
    state: BridgeState,
    ctx: CallContextView,
    transaction: TransactionView,
    signature: Seq<u8>,
)
    requires
        state.inv(),
        state.fulfill_refusal(ctx, transaction, signature) is None,
    ensures
        record_id(transaction) is Some,
        !state.fulfilled.contains(record_id(transaction)->Some_0),
        state.fulfill_applied(transaction, record_id(transaction)->Some_0).inv(),
        state.fulfill_applied(transaction, record_id(transaction)->Some_0).fulfilled.contains(
            record_id(transaction)->Some_0,
        ),
        state.fulfill_applied(
            transaction,
            record_id(transaction)->Some_0,
        ).storage_paid[transaction.to_user] == state.storage_paid[transaction.to_user]
            - storage_price(state.costs.fulfill),
{
    law_charge_keeps_total(state, transaction.to_user, storage_price(state.costs.fulfill));
}

/// While a record is marked as released, no request to release it is
/// accepted, whatever the caller, the payment and the signature. A request
/// that passes the checks on the call, on the record and on the recipient's
/// credit is refused as a replay.
pub proof fn law_marked_record_is_refused(
    state: BridgeState,
    ctx: CallContextView,
    transaction: TransactionView,
    signature: Seq<u8>,
)
    requires
        record_id(transaction) is Some,
        state.fulfilled.contains(record_id(transaction)->Some_0),
    ensures
        state.fulfill_refusal(ctx, transaction, signature) is Some,
        (ctx.attached_deposit == 1 && ctx.prepaid_gas >= GAS_FOR_FULFILL && account_id_valid(
            transaction.to_user,
        ) && transaction.to_chain == CURRENT_CHAIN@ && state.available_chains.contains(
            transaction.from_chain,
        ) && debit_refusal(
            state.storage_paid,
            transaction.to_user,
            storage_price(state.costs.fulfill),
        ) is None) ==> state.fulfill_refusal(ctx, transaction, signature) == Some(
            BridgeError::DuplicateFulfillment,
        ),
        kind_of(BridgeError::DuplicateFulfillment) == ErrorKind::Replay,
{
}

/// A record cannot be released twice in a row: after an accepted request,
/// every further request for the same record is refused, and as a replay
/// where the call and the recipient's credit would otherwise let it pass.
pub proof fn law_second_release_is_refused(
    state: BridgeState,
    ctx: CallContextView,
    transaction: TransactionView,
    signature: Seq<u8>,
    second_ctx: CallContextView,
    second_signature: Seq<u8>,
)
    requires
        state.inv(),
        state.fulfill_refusal(ctx, transaction, signature) is None,
    ensures
        state.fulfill_applied(transaction, record_id(transaction)->Some_0).fulfill_refusal(
            second_ctx,
            transaction,
            second_signature,
        ) is Some,
        (second_ctx.attached_deposit == 1 && second_ctx.prepaid_gas >= GAS_FOR_FULFILL
            && debit_refusal(
            state.fulfill_applied(transaction, record_id(transaction)->Some_0).storage_paid,
            transaction.to_user,
            storage_price(state.costs.fulfill),
        ) is None) ==> state.fulfill_applied(
            transaction,
            record_id(transaction)->Some_0,
        ).fulfill_refusal(second_ctx, transaction, second_signature) == Some(
            BridgeError::DuplicateFulfillment,
        ),
{
    let after = state.fulfill_applied(transaction, record_id(transaction)->Some_0);
    law_marked_record_is_refused(after, second_ctx, transaction, second_signature);
}

/// A rollback gives the recipient back exactly what the release cost and
/// takes the mark off the record; the state stays valid.
pub proof fn law_rollback_returns_credit(
    state: BridgeState,
    tx_hash: Seq<char>,
    to_user: Seq<char>,
    storage_paid_for_call: u128,
)
    requires
        state.inv(),
        state.rollback_refusal(to_user, storage_paid_for_call) is None,
    ensures
        state.rolled_back(tx_hash, to_user, storage_paid_for_call).inv(),
        state.rolled_back(tx_hash, to_user, storage_paid_for_call).storage_paid[to_user]
            == state.storage_paid[to_user] + storage_paid_for_call,
        !state.rolled_back(tx_hash, to_user, storage_paid_for_call).fulfilled.contains(tx_hash),
{
    law_grant_keeps_total(state, to_user, storage_paid_for_call);
}

/// If the transfer of the principal fails, or the fee wallet cannot receive
/// the fee, the release is undone without a trace: the state is the one from
/// before the request. In particular the recipient's credit is what it was,
/// and the record is not marked.
pub proof fn law_failed_release_restores_state(
    state: BridgeState,
    ctx: CallContextView,
    transaction: TransactionView,
    signature: Seq<u8>,
)
    requires
        state.inv(),
        state.fulfill_refusal(ctx, transaction, signature) is None,
    ensures
        ({
            let id = record_id(transaction)->Some_0;
            let after = state.fulfill_applied(transaction, id);
            let pending = state.fulfill_pending(transaction, id);
            &&& after.resolve_dispense_refusal(PromiseResult::Failed, pending) is None
            &&& after.resolve_dispense_applied(PromiseResult::Failed, pending) == state
            &&& after.resolve_fulfill_refusal(false, pending) is None
            &&& after.resolve_fulfill_applied(false, pending) == state
            &&& after.resolve_dispense_applied(
                PromiseResult::Failed,
                pending,
            ).storage_paid[transaction.to_user] == state.storage_paid[transaction.to_user]
            &&& !after.resolve_dispense_applied(PromiseResult::Failed, pending).fulfilled.contains(
                id,
            )
        }),
{
    let id = record_id(transaction)->Some_0;
    let cost = storage_price(state.costs.fulfill);
    let after = state.fulfill_applied(transaction, id);
    let pending = state.fulfill_pending(transaction, id);
    law_charge_keeps_total(state, transaction.to_user, cost);
    let restored = after.rolled_back(id, transaction.to_user, cost);
    assert(restored.storage_paid =~= state.storage_paid);
    assert(restored.fulfilled =~= state.fulfilled);
}

/// A successful transfer of the principal journals the record for the
/// account that made the deposit, and leaves credit and marks as they are.
pub proof fn law_completed_release_is_journaled(
    state: BridgeState,
    pending: PendingView,
)
    requires
        state.inv(),
    ensures
        state.resolve_dispense_refusal(PromiseResult::Successful, pending) is None,
        state.resolve_dispense_applied(PromiseResult::Successful, pending).inv(),
        log_of(
            state.resolve_dispense_applied(PromiseResult::Successful, pending).transactions,
            pending.transaction.from_user,
        ) == log_of(state.transactions, pending.transaction.from_user).push(pending.transaction),
        state.resolve_dispense_applied(PromiseResult::Successful, pending).fulfilled
            == state.fulfilled,
        state.resolve_dispense_applied(PromiseResult::Successful, pending).storage_paid
            == state.storage_paid,
{
}

/// The fee is the amount times the fee ratio, rounded down; at a ratio below
/// one it never exceeds the amount, so that fee and principal add up to the
/// amount.
pub proof fn law_fee_and_principal(amount: u128, fee_numerator: u16)
    requires
        fee_numerator < FEE_DENOMINATOR,
    ensures
        fee_of(amount, fee_numerator) * FEE_DENOMINATOR <= amount * fee_numerator,
        amount * fee_numerator < (fee_of(amount, fee_numerator) + 1) * FEE_DENOMINATOR,
        0 <= fee_of(amount, fee_numerator) <= amount,
        fee_of(amount, fee_numerator) + (amount - fee_of(amount, fee_numerator)) == amount,
{
    let product = amount * fee_numerator;
    let fee = product / 10000;
    lemma_fundamental_div_mod(product, 10000);
    assert(0 <= product <= amount * 10000) by (nonlinear_arith)
        requires
            product == amount * fee_numerator,
            0 <= fee_numerator < 10000,
            0 <= amount,
    ;
    assert(fee * 10000 == 10000 * fee) by (nonlinear_arith);
    assert((fee + 1) * 10000 == 10000 * fee + 10000) by (nonlinear_arith);
}

/// A probe leaves no trace: placing it where its place is free and clearing
/// it again gives the state back as it was.
pub proof fn law_probe_leaves_no_trace(state: BridgeState, probe: Probe, mark: Seq<char>)
    requires
        state.inv(),
        state.probe_absent(probe, mark),
    ensures
        state.probe_placed(probe, mark).inv(),
        state.probe_placed(probe, mark).probe_cleared(probe, mark) == state,
{
    let placed = state.probe_placed(probe, mark);
    let cleared = placed.probe_cleared(probe, mark);
    match probe {
        Probe::Registration => {
            lemma_sum_insert(state.storage_paid, PROBE_ACCOUNT@, 0);
            assert(cleared.storage_paid =~= state.storage_paid);
        },
        Probe::JournalAppend => {
            assert(cleared.transactions =~= state.transactions);
        },
        Probe::ReplayMark => {
            assert(cleared.fulfilled =~= state.fulfilled);
        },
        Probe::ChainEntry => {
            let list = state.available_chains;
            lemma_push_distinct(list, PROBE_CHAIN@);
            lemma_index_of_unique(list.push(PROBE_CHAIN@), list.len() as int);
            assert(cleared.available_chains =~= list);
        },
    }
}

} // verus!
