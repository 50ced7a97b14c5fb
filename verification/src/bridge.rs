use crate::codec::serialize_record;
use crate::credit::CreditLedger;
use crate::credit::refusal;
use crate::crypto::keccak256;
use crate::error::BridgeError;
use crate::journal::Journal;
use crate::journal::log_of;
use crate::keys::texts;
use crate::model::BridgeState;
use crate::model::FEE_DENOMINATOR;
use crate::model::STORAGE_PRICE_PER_BYTE;
use crate::model::StorageCosts;
use crate::model::fee_of;
use crate::model::record_hash;
use crate::model::storage_price;
use crate::record::Transaction;
use crate::record::records_view;
use crate::registry::ChainRegistry;
use crate::relayer::RelayerKey;
use crate::relayer::parse_outcome;
use crate::replay::ReplaySet;
use vstd::arithmetic::div_mod::lemma_fundamental_div_mod;
use vstd::arithmetic::div_mod::lemma_hoist_over_denominator;
use vstd::prelude::*;

verus! {

/// The price of a number of bytes of persisted state.
pub fn price(bytes: u64) -> (price: u128)
    ensures
        price == storage_price(bytes),
        price == bytes * STORAGE_PRICE_PER_BYTE,
{
    bytes as u128 * STORAGE_PRICE_PER_BYTE
}

/// Dividing first and multiplying the two parts gives the same fee as
/// multiplying first, and no part leaves the range of the amount.
proof fn lemma_fee_in_parts(amount: int, numerator: int)
    requires
        0 <= amount,
        0 <= numerator < 10000,
    ensures
        (amount / 10000) * numerator + ((amount % 10000) * numerator) / 10000 == (amount
            * numerator) / 10000,
        0 <= (amount / 10000) * numerator <= amount,
        0 <= (amount % 10000) * numerator < 100_000_000,
        (amount * numerator) / 10000 <= amount,
{
    let whole = amount / 10000;
    let rest = amount % 10000;
    lemma_fundamental_div_mod(amount, 10000);
    lemma_hoist_over_denominator(rest * numerator, whole * numerator, 10000);
    assert(rest * numerator + (whole * numerator) * 10000 == amount * numerator)
        by (nonlinear_arith)
        requires
            amount == 10000 * whole + rest,
    ;
    assert(0 <= whole * numerator <= whole * 10000) by (nonlinear_arith)
        requires
            0 <= whole,
            0 <= numerator < 10000,
    ;
    assert(0 <= rest * numerator < 100_000_000) by (nonlinear_arith)
        requires
            0 <= rest < 10000,
            0 <= numerator < 10000,
    ;
    assert((rest * numerator) / 10000 <= rest) by (nonlinear_arith)
        requires
            0 <= rest,
            0 <= numerator < 10000,
    ;
}

/// The fee withheld from an amount at a fee ratio below one, rounded down.
pub fn compute_fee(amount: u128, fee_numerator: u16) -> (fee: u128)
    requires
        fee_numerator < FEE_DENOMINATOR,
    ensures
        fee == fee_of(amount, fee_numerator),
        fee <= amount,
{
    let denominator: u128 = FEE_DENOMINATOR as u128;
    let numerator: u128 = fee_numerator as u128;
    proof {
        lemma_fee_in_parts(amount as int, numerator as int);
    }
    (amount / denominator) * numerator + ((amount % denominator) * numerator) / denominator
}

/// The state that a new bridge ledger starts in: nothing journaled, nothing
/// released, no credit, no chains, and the storage costs not yet measured.
pub open spec fn initial_state(
    owner: Seq<char>,
    relayer_role: Seq<u8>,
    token: Seq<char>,
    fee_wallet: Seq<char>,
    limit_per_send: u128,
    fee_numerator: u16,
) -> BridgeState {
    BridgeState {
        costs: StorageCosts { register: 0, ft_on_transfer: 0, fulfill: 0, add_chain: 0 },
        owner,
        relayer_role,
        token,
        fee_wallet,
        limit_per_send,
        nonce: 0,
        fee_numerator,
        transactions: Map::empty(),
        fulfilled: Set::empty(),
        storage_paid: Map::empty(),
        total_storage_paid: 0,
        available_chains: Seq::empty(),
    }
}

/// Why a new bridge ledger cannot be set up, if it cannot.
pub open spec fn init_refusal(relayer_role: Seq<char>, fee_numerator: u16) -> Option<BridgeError> {
    if fee_numerator >= FEE_DENOMINATOR {
        Some(BridgeError::FeeTooHigh)
    } else {
        match parse_outcome(relayer_role) {
            Err(error) => Some(error),
            Ok(_) => None,
        }
    }
}

/// The contents of a new ledger or its refusal.
pub open spec fn state_view(result: Result<BridgeAssist, BridgeError>) -> Result<
    BridgeState,
    BridgeError,
> {
    match result {
        Ok(bridge) => Ok(bridge@),
        Err(error) => Err(error),
    }
}

/// The bridge ledger: escrow intake, signature-gated release with replay
/// protection, and the storage credit that pays for both.
pub struct BridgeAssist {
    pub(crate) costs: StorageCosts,
    pub(crate) owner: String,
    pub(crate) relayer_role: RelayerKey,
    pub(crate) token: String,
    pub(crate) fee_wallet: String,
    pub(crate) limit_per_send: u128,
    pub(crate) nonce: u128,
    pub(crate) fee_numerator: u16,
    pub(crate) transactions: Journal,
    pub(crate) fulfilled: ReplaySet,
    pub(crate) storage_paid: CreditLedger,
    pub(crate) available_chains: ChainRegistry,
}

impl View for BridgeAssist {
    type V = BridgeState;

    open(crate) spec fn view(&self) -> BridgeState {
        BridgeState {
            costs: self.costs,
            owner: self.owner@,
            relayer_role: self.relayer_role@,
            token: self.token@,
            fee_wallet: self.fee_wallet@,
            limit_per_send: self.limit_per_send,
            nonce: self.nonce,
            fee_numerator: self.fee_numerator,
            transactions: self.transactions@,
            fulfilled: self.fulfilled@,
            storage_paid: self.storage_paid@,
            total_storage_paid: self.storage_paid.total(),
            available_chains: self.available_chains@,
        }
    }
}

impl BridgeAssist {
    /// The representation is consistent.
    pub open(crate) spec fn well_represented(&self) -> bool {
        &&& self.transactions.wf()
        &&& self.fulfilled.wf()
        &&& self.storage_paid.well_represented()
    }

    /// The ledger is valid: it is consistently represented, and its state
    /// satisfies the state invariant.
    pub open spec fn wf(&self) -> bool {
        &&& self.well_represented()
        &&& self@.inv()
    }

    /// Sets up a ledger with the given relayer key.
    pub fn with_relayer_key(
        owner: String,
        relayer_role: RelayerKey,
        token: String,
        fee_wallet: String,
        limit_per_send: u128,
        fee_numerator: u16,
    ) -> (result: Result<BridgeAssist, BridgeError>)
        requires
            relayer_role.wf(),
        ensures
            state_view(result) == (if fee_numerator >= FEE_DENOMINATOR {
                Err(BridgeError::FeeTooHigh)
            } else {
                Ok(
                    initial_state(
                        owner@,
                        relayer_role@,
                        token@,
                        fee_wallet@,
                        limit_per_send,
                        fee_numerator,
                    ),
                )
            }),
            result is Ok ==> result->Ok_0.wf(),
    {
        if fee_numerator >= FEE_DENOMINATOR {
            return Err(BridgeError::FeeTooHigh);
        }
        let bridge = BridgeAssist {
            costs: StorageCosts { register: 0, ft_on_transfer: 0, fulfill: 0, add_chain: 0 },
            owner,
            relayer_role,
            token,
            fee_wallet,
            limit_per_send,
            nonce: 0,
            fee_numerator,
            transactions: Journal::new(),
            fulfilled: ReplaySet::new(),
            storage_paid: CreditLedger::new(),
            available_chains: ChainRegistry::new(),
        };
        Ok(bridge)
    }

    /// Sets up a ledger. The relayer key is given as text; only an Ed25519
    /// key is accepted, and only a fee ratio below one.
    pub fn init(
        owner: String,
        relayer_role: String,
        token: String,
        fee_wallet: String,
        limit_per_send: u128,
        fee_numerator: u16,
    ) -> (result: Result<BridgeAssist, BridgeError>)
        ensures
            refusal(result) == init_refusal(relayer_role@, fee_numerator),
            result is Ok ==> result->Ok_0.wf() && result->Ok_0@ == initial_state(
                owner@,
                parse_outcome(relayer_role@)->Ok_0,
                token@,
                fee_wallet@,
                limit_per_send,
                fee_numerator,
            ),
    {
        if fee_numerator >= FEE_DENOMINATOR {
            return Err(BridgeError::FeeTooHigh);
        }
        match RelayerKey::parse(&relayer_role) {
            Err(error) => Err(error),
            Ok(key) => Self::with_relayer_key(
                owner,
                key,
                token,
                fee_wallet,
                limit_per_send,
                fee_numerator,
            ),
        }
    }

    /// The owner.
    pub fn get_owner(&self) -> (owner: String)
        ensures
            owner@ == self@.owner,
    {
        self.owner.clone()
    }

    /// The relayer's key.
    pub fn get_relayer_role(&self) -> (key: RelayerKey)
        ensures
            key@ == self@.relayer_role,
    {
        self.relayer_role.clone()
    }

    /// The token contract whose transfers the bridge escrows and releases.
    pub fn get_token(&self) -> (token: String)
        ensures
            token@ == self@.token,
    {
        self.token.clone()
    }

    /// The fee wallet, the fee numerator and the fee denominator.
    pub fn get_fee_info(&self) -> (info: (String, u16, u16))
        ensures
            info.0@ == self@.fee_wallet,
            info.1 == self@.fee_numerator,
            info.2 == FEE_DENOMINATOR,
    {
        (self.fee_wallet.clone(), self.fee_numerator, FEE_DENOMINATOR)
    }

    /// The largest amount that one deposit may escrow.
    pub fn get_limit_per_send(&self) -> (limit: u128)
        ensures
            limit == self@.limit_per_send,
    {
        self.limit_per_send
    }

    /// The number of deposits accepted so far.
    pub fn get_nonce(&self) -> (nonce: u128)
        ensures
            nonce == self@.nonce,
    {
        self.nonce
    }
}


impl BridgeAssist {
    /// The hash of a record: the Keccak-256 digest of its canonical
    /// serialization.
    pub fn get_tx_hash(&self, transaction: &Transaction) -> (result: Result<Vec<u8>, BridgeError>)
        ensures
            match result {
                Ok(hash) => record_hash(transaction@) == Some(hash@),
                Err(error) => error == BridgeError::Serialization && record_hash(transaction@)
                    is None,
            },
    {
        match serialize_record(transaction) {
            Some(bytes) => Ok(keccak256(&bytes)),
            None => Err(BridgeError::Serialization),
        }
    }

    /// Whether the record with this hash, given in hexadecimal, has been
    /// released.
    pub fn is_tx_fulfilled(&self, tx_hash: String) -> (fulfilled: bool)
        ensures
            fulfilled == self@.fulfilled.contains(tx_hash@),
    {
        self.fulfilled.contains(&tx_hash)
    }

    /// Whether the chain is registered.
    pub fn is_available_chain(&self, chain: String) -> (available: bool)
        ensures
            available == self@.available_chains.contains(chain@),
    {
        self.available_chains.contains(&chain)
    }

    /// The registered chains, in listing order.
    pub fn supported_chain_list(&self) -> (chains: Vec<String>)
        ensures
            texts(chains@) == self@.available_chains,
    {
        self.available_chains.to_vec()
    }

    /// The price of registering a chain.
    pub fn get_pay_for_add_chain(&self) -> (price: u128)
        ensures
            price == storage_price(self@.costs.add_chain),
    {
        price(self.costs.add_chain)
    }

    /// What is known of an account's storage credit: whether it is
    /// registered, its credit, the prices of a registration, of a deposit and
    /// of a release, and the total of all credit.
    pub fn get_storage_paid_info(&self, user: String) -> (info: (
        bool,
        u128,
        u128,
        u128,
        u128,
        u128,
    ))
        requires
            self.wf(),
        ensures
            info.0 == self@.storage_paid.dom().contains(user@),
            info.1 == (if self@.storage_paid.dom().contains(user@) {
                self@.storage_paid[user@]
            } else {
                0
            }),
            info.2 == storage_price(self@.costs.register),
            info.3 == storage_price(self@.costs.ft_on_transfer),
            info.4 == storage_price(self@.costs.fulfill),
            info.5 == self@.total_storage_paid,
    {
        let credit = self.storage_paid.get(&user);
        let balance: u128 = match credit {
            Some(balance) => balance,
            None => 0,
        };
        (
            credit.is_some(),
            balance,
            price(self.costs.register),
            price(self.costs.ft_on_transfer),
            price(self.costs.fulfill),
            self.storage_paid.total_credit(),
        )
    }

    /// The record at a position of an account's history.
    pub fn get_transaction_by_user(&self, user: String, index: u64) -> (result: Result<
        Transaction,
        BridgeError,
    >)
        requires
            self.wf(),
        ensures
            match result {
                Ok(record) => index < log_of(self@.transactions, user@).len() && record@ == log_of(
                    self@.transactions,
                    user@,
                )[index as int],
                Err(error) => error == BridgeError::IndexOutOfRange && index >= log_of(
                    self@.transactions,
                    user@,
                ).len(),
            },
    {
        let count: usize = self.transactions.len(&user);
        if index >= count as u64 {
            return Err(BridgeError::IndexOutOfRange);
        }
        match self.transactions.get(&user, index as usize) {
            Some(record) => Ok(record),
            None => Err(BridgeError::IndexOutOfRange),
        }
    }

    /// An account's history.
    pub fn get_transactions_by_user(&self, user: String) -> (records: Vec<Transaction>)
        requires
            self.wf(),
        ensures
            records_view(records@) == log_of(self@.transactions, user@),
    {
        self.transactions.all(&user)
    }

    /// The number of records in an account's history.
    pub fn get_transactions_amount_by_user(&self, user: String) -> (count: u64)
        requires
            self.wf(),
        ensures
            count == log_of(self@.transactions, user@).len(),
    {
        self.transactions.len(&user) as u64
    }

    /// Lets the call pass only if the caller is the owner.
    pub fn only_owner(&self, caller: String) -> (result: Result<(), BridgeError>)
        ensures
            refusal(result) == self@.owner_refusal(caller@),
    {
        if caller == self.owner {
            Ok(())
        } else {
            Err(BridgeError::NotOwner)
        }
    }
}

} // verus!
