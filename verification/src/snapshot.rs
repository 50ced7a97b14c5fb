use crate::bridge::BridgeAssist;
use crate::credit::CreditLedger;
use crate::credit::entries_valid;
use crate::journal::Journal;
use crate::journal::logs_view;
use crate::keys::keyed_map;
use crate::keys::texts;
use crate::model::BridgeState;
use crate::model::FEE_DENOMINATOR;
use crate::model::StorageCosts;
use crate::record::Transaction;
use crate::registry::ChainRegistry;
use crate::relayer::RelayerKey;
use crate::relayer::is_ed25519;
use crate::replay::ReplaySet;
use crate::sums::balances_sum;
use crate::sums::lemma_keyed_sum;
use vstd::prelude::*;

verus! {

/// The whole of a ledger as plain values, to be persisted and read back.
#[derive(Debug)]
pub struct Snapshot {
    pub costs: StorageCosts,
    pub owner: String,
    /// The stored bytes of the relayer's key.
    pub relayer_role: Vec<u8>,
    pub token: String,
    pub fee_wallet: String,
    pub limit_per_send: u128,
    pub nonce: u128,
    pub fee_numerator: u16,
    /// The accounts that have a history.
    pub journal_accounts: Vec<String>,
    /// The history of each of these accounts, position by position.
    pub journal_logs: Vec<Vec<Transaction>>,
    /// The hashes of the records that were released.
    pub fulfilled: Vec<String>,
    /// The registered accounts.
    pub credit_accounts: Vec<String>,
    /// The credit of each of these accounts, position by position.
    pub credit_balances: Vec<u128>,
    /// The registered chains, in listing order.
    pub available_chains: Vec<String>,
}

/// Whether a snapshot describes a valid ledger.
pub open spec fn snapshot_valid(snapshot: Snapshot) -> bool {
    &&& snapshot.fee_numerator < FEE_DENOMINATOR
    &&& is_ed25519(snapshot.relayer_role@)
    &&& snapshot.journal_accounts.len() == snapshot.journal_logs.len()
    &&& texts(snapshot.journal_accounts@).no_duplicates()
    &&& texts(snapshot.fulfilled@).no_duplicates()
    &&& entries_valid(snapshot.credit_accounts@, snapshot.credit_balances@)
    &&& texts(snapshot.available_chains@).no_duplicates()
}

/// The state that a snapshot describes.
pub open spec fn snapshot_state(snapshot: Snapshot) -> BridgeState {
    BridgeState {
        costs: snapshot.costs,
        owner: snapshot.owner@,
        relayer_role: snapshot.relayer_role@,
        token: snapshot.token@,
        fee_wallet: snapshot.fee_wallet@,
        limit_per_send: snapshot.limit_per_send,
        nonce: snapshot.nonce,
        fee_numerator: snapshot.fee_numerator,
        transactions: keyed_map(
            texts(snapshot.journal_accounts@),
            logs_view(snapshot.journal_logs@),
        ),
        fulfilled: texts(snapshot.fulfilled@).to_set(),
        storage_paid: keyed_map(texts(snapshot.credit_accounts@), snapshot.credit_balances@),
        total_storage_paid: balances_sum(snapshot.credit_balances@) as u128,
        available_chains: texts(snapshot.available_chains@),
    }
}

impl BridgeAssist {
    /// The whole ledger as plain values.
    pub fn snapshot(&self) -> (snapshot: Snapshot)
        requires
            self.wf(),
        ensures
            snapshot_valid(snapshot),
            snapshot_state(snapshot) == self@,
    {
        let (journal_accounts, journal_logs) = self.transactions.entries();
        let (credit_accounts, credit_balances) = self.storage_paid.entries();
        proof {
            lemma_keyed_sum(texts(credit_accounts@), credit_balances@);
        }
        Snapshot {
            costs: self.costs,
            owner: self.owner.clone(),
            relayer_role: self.relayer_role.to_bytes(),
            token: self.token.clone(),
            fee_wallet: self.fee_wallet.clone(),
            limit_per_send: self.limit_per_send,
            nonce: self.nonce,
            fee_numerator: self.fee_numerator,
            journal_accounts,
            journal_logs,
            fulfilled: self.fulfilled.to_vec(),
            credit_accounts,
            credit_balances,
            available_chains: self.available_chains.to_vec(),
        }
    }

    /// The ledger that a snapshot describes. `None` for a snapshot that
    /// describes no valid ledger.
    pub fn restore(snapshot: Snapshot) -> (bridge: Option<BridgeAssist>)
        ensures
            bridge is Some <==> snapshot_valid(snapshot),
            bridge is Some ==> bridge->Some_0.wf() && bridge->Some_0@ == snapshot_state(snapshot),
    {
        if snapshot.fee_numerator >= FEE_DENOMINATOR {
            return None;
        }
        let relayer_role = match RelayerKey::from_parsed(Some(snapshot.relayer_role)) {
            Ok(key) => key,
            Err(_) => {
                return None;
            },
        };
        let transactions = match Journal::from_entries(
            snapshot.journal_accounts,
            snapshot.journal_logs,
        ) {
            Some(journal) => journal,
            None => {
                return None;
            },
        };
        let fulfilled = match ReplaySet::from_vec(snapshot.fulfilled) {
            Some(set) => set,
            None => {
                return None;
            },
        };
        let storage_paid = match CreditLedger::from_entries(
            snapshot.credit_accounts,
            snapshot.credit_balances,
        ) {
            Some(ledger) => ledger,
            None => {
                return None;
            },
        };
        let available_chains = match ChainRegistry::from_vec(snapshot.available_chains) {
            Some(registry) => registry,
            None => {
                return None;
            },
        };
        Some(
            BridgeAssist {
                costs: snapshot.costs,
                owner: snapshot.owner,
                relayer_role,
                token: snapshot.token,
                fee_wallet: snapshot.fee_wallet,
                limit_per_send: snapshot.limit_per_send,
                nonce: snapshot.nonce,
                fee_numerator: snapshot.fee_numerator,
                transactions,
                fulfilled,
                storage_paid,
                available_chains,
            },
        )
    }
}

} // verus!
