use crate::codec::canonical_bytes;
use crate::codec::hex_text;
use crate::credit::credit_applied;
use crate::credit::credit_refusal;
use crate::credit::debit_applied;
use crate::credit::debit_refusal;
use crate::credit::deposit_applied;
use crate::credit::deposit_gain;
use crate::credit::deposit_refusal;
use crate::crypto::keccak256_digest;
use crate::crypto::signature_check;
use crate::crypto::SignatureCheck;
use crate::error::BridgeError;
use crate::journal::appended;
use crate::message::message_address;
use crate::message::message_chain;
use crate::message::message_well_formed;
use crate::near::account_id_valid;
use crate::record::TransactionView;
use crate::registry::without;
use crate::relayer::is_ed25519;
use crate::relayer::parse_outcome;
use crate::relayer::raw_key;
use crate::sums::credit_sum;
use vstd::prelude::*;

verus! {

/// Gas that a release must be given.
pub const GAS_FOR_FULFILL: u64 = 80_000_000_000_000;

/// Identifier of the chain this ledger lives on.
pub const CURRENT_CHAIN: &'static str = "NEAR";

/// Denominator of the fee ratio: fees are set in hundredths of a percent.
pub const FEE_DENOMINATOR: u16 = 10000;

/// Storage balance that the fee wallet must hold at the token contract to be
/// able to receive fees.
pub const MIN_TOKEN_STORAGE_DEPOSIT: u128 = 1_250_000_000_000_000_000_000;

/// Price of one byte of persisted state.
pub const STORAGE_PRICE_PER_BYTE: u128 = 10_000_000_000_000_000_000;

/// Nanoseconds per second: block times come in nanoseconds, records hold
/// seconds.
pub const NANOS_PER_SECOND: u64 = 1_000_000_000;

/// Measured size in bytes of each kind of state change that users pay for.
#[derive(Clone, Copy, Debug, PartialEq, Eq, Structural)]
pub struct StorageCosts {
    /// A new storage credit entry.
    pub register: u64,
    /// One record appended to a journal.
    pub ft_on_transfer: u64,
    /// One release: a replay mark and a journal record.
    pub fulfill: u64,
    /// One chain added to the registry.
    pub add_chain: u64,
}

/// Persisted bytes in use, read before and after a state change.
#[derive(Clone, Copy, Debug, PartialEq, Eq, Structural)]
pub struct UsageReading {
    pub before: u64,
    pub after: u64,
}

/// The readings taken around the four state changes that are measured.
#[derive(Clone, Copy, Debug, PartialEq, Eq, Structural)]
pub struct StorageReadings {
    /// Around the insertion of a storage credit entry.
    pub register: UsageReading,
    /// Around the append of a record to a journal.
    pub ft_on_transfer: UsageReading,
    /// Around the insertion of a replay mark.
    pub fulfill: UsageReading,
    /// Around the insertion of a chain.
    pub add_chain: UsageReading,
}

/// The kinds of state change that are measured, each by a synthetic entry of
/// the largest size that is placed and cleared again.
#[derive(Clone, Copy, Debug, PartialEq, Eq, Structural)]
pub enum Probe {
    /// A storage credit entry for the longest account identifier.
    Registration,
    /// A journal record with fields of the largest size.
    JournalAppend,
    /// The replay mark of that record.
    ReplayMark,
    /// A chain identifier of usual length.
    ChainEntry,
}

/// The longest account identifier.
pub const PROBE_ACCOUNT: &'static str =
    "aaaaaaaaaaaaaaaaaaaaaaaaaaaaaaaaaaaaaaaaaaaaaaaaaaaaaaaaaaaaaaaa";

/// A destination address of full length.
pub const PROBE_ADDRESS: &'static str = "aaaaaaaaaaaaaaaaaaaaaaaaaaaaaaaaaaaaaaaaaa";

/// A chain identifier of usual length.
pub const PROBE_CHAIN: &'static str = "AAAAA";

/// The record that is journaled to measure an append.
pub open spec fn probe_record() -> TransactionView {
    TransactionView {
        from_user: PROBE_ACCOUNT@,
        to_user: PROBE_ADDRESS@,
        amount: 0,
        timestamp: 0,
        from_chain: PROBE_ACCOUNT@,
        to_chain: PROBE_ACCOUNT@,
        nonce: 0,
    }
}

/// The bytes that a reading says a state change took; `None` where usage did
/// not grow.
pub open spec fn bytes_taken(reading: UsageReading) -> Option<u64> {
    if reading.after < reading.before {
        None
    } else {
        Some((reading.after - reading.before) as u64)
    }
}

/// The storage costs that a set of readings amounts to. A release takes a
/// replay mark and a journal record. `None` where a reading shows shrinking
/// usage, or the cost of a release leaves the range of its type.
pub open spec fn measured_costs(readings: StorageReadings) -> Option<StorageCosts> {
    if bytes_taken(readings.register) is None || bytes_taken(readings.ft_on_transfer) is None
        || bytes_taken(readings.fulfill) is None || bytes_taken(readings.add_chain) is None {
        None
    } else if bytes_taken(readings.fulfill)->Some_0 + bytes_taken(readings.ft_on_transfer)->Some_0
        > u64::MAX {
        None
    } else {
        Some(
            StorageCosts {
                register: bytes_taken(readings.register)->Some_0,
                ft_on_transfer: bytes_taken(readings.ft_on_transfer)->Some_0,
                fulfill: (bytes_taken(readings.fulfill)->Some_0 + bytes_taken(
                    readings.ft_on_transfer,
                )->Some_0) as u64,
                add_chain: bytes_taken(readings.add_chain)->Some_0,
            },
        )
    }
}

/// The price of a number of bytes of persisted state.
pub open spec fn storage_price(bytes: u64) -> u128 {
    (bytes * STORAGE_PRICE_PER_BYTE) as u128
}

/// The fee withheld from an amount, rounded down.
pub open spec fn fee_of(amount: u128, fee_numerator: u16) -> int {
    (amount * fee_numerator) / (FEE_DENOMINATOR as int)
}

/// What the call environment tells about a call.
#[derive(Debug)]
pub struct CallContext {
    /// The account that made the call.
    pub predecessor: String,
    /// The account that signed the transaction the call belongs to.
    pub signer: String,
    /// The payment attached to the call.
    pub attached_deposit: u128,
    /// The gas the call was given.
    pub prepaid_gas: u64,
    /// The time of the block, in nanoseconds.
    pub block_timestamp: u64,
    /// The balance of the contract's own account.
    pub account_balance: u128,
}

/// The mathematical content of a [`CallContext`].
pub struct CallContextView {
    pub predecessor: Seq<char>,
    pub signer: Seq<char>,
    pub attached_deposit: u128,
    pub prepaid_gas: u64,
    pub block_timestamp: u64,
    pub account_balance: u128,
}

impl View for CallContext {
    type V = CallContextView;

    open spec fn view(&self) -> CallContextView {
        CallContextView {
            predecessor: self.predecessor@,
            signer: self.signer@,
            attached_deposit: self.attached_deposit,
            prepaid_gas: self.prepaid_gas,
            block_timestamp: self.block_timestamp,
            account_balance: self.account_balance,
        }
    }
}

/// What the token contract holds for an account's storage.
#[derive(Clone, Copy, Debug, PartialEq, Eq, Structural)]
pub struct StorageBalance {
    pub total: u128,
    pub available: u128,
}

/// Why a scheduled call gave no result.
#[derive(Clone, Copy, Debug, PartialEq, Eq, Structural)]
pub enum PromiseError {
    Failed,
    NotReady,
}

/// How a scheduled call ended.
#[derive(Clone, Copy, Debug, PartialEq, Eq, Structural)]
pub enum PromiseResult {
    Successful,
    Failed,
}

/// Whether the answer to the storage query lets the fee wallet receive fees:
/// the query succeeded, the wallet is registered, and its balance reaches the
/// minimum.
pub open spec fn fee_wallet_eligible(answer: Result<Option<StorageBalance>, PromiseError>) -> bool {
    match answer {
        Ok(Some(balance)) => balance.total >= MIN_TOKEN_STORAGE_DEPOSIT,
        _ => false,
    }
}

/// The data of a release in flight, handed from stage to stage.
pub struct PendingView {
    pub transaction: TransactionView,
    pub tx_hash: Seq<char>,
    pub to_user: Seq<char>,
    pub current_fee: u128,
    pub storage_paid_for_call: u128,
}

/// The data of a release in flight, from its parts.
pub open spec fn pending_of(
    transaction: TransactionView,
    tx_hash: Seq<char>,
    current_fee: u128,
    to_user: Seq<char>,
    storage_paid_for_call: u128,
) -> PendingView {
    PendingView { transaction, tx_hash, to_user, current_fee, storage_paid_for_call }
}

/// What the caller is to do after a call that was accepted.
pub enum ActionView {
    /// Nothing.
    Done,
    /// Ask `token` for the storage balance of `fee_wallet`, then resume the
    /// release with the answer.
    QueryFeeWallet { token: Seq<char>, fee_wallet: Seq<char>, pending: PendingView },
    /// Transfer `amount` of `token` to the recipient, then resume the release
    /// with the outcome.
    Dispense { token: Seq<char>, amount: u128, pending: PendingView },
    /// Transfer the fee to the fee wallet; the outcome is not awaited.
    PayFee { token: Seq<char>, fee_wallet: Seq<char>, amount: u128 },
    /// Transfer `amount` of `token` to `to`.
    TransferToken { token: Seq<char>, to: Seq<char>, amount: u128 },
    /// Transfer `amount` of the native currency to `to`.
    TransferNative { to: Seq<char>, amount: u128 },
}

/// The state of the bridge ledger.
pub struct BridgeState {
    pub costs: StorageCosts,
    pub owner: Seq<char>,
    /// The stored bytes of the relayer's key.
    pub relayer_role: Seq<u8>,
    pub token: Seq<char>,
    pub fee_wallet: Seq<char>,
    pub limit_per_send: u128,
    pub nonce: u128,
    pub fee_numerator: u16,
    /// The journal: per account, its completed transfers in order.
    pub transactions: Map<Seq<char>, Seq<TransactionView>>,
    /// The replay set: hashes of the records that were released.
    pub fulfilled: Set<Seq<char>>,
    /// The storage credit of each registered account.
    pub storage_paid: Map<Seq<char>, u128>,
    /// The running total of all storage credit.
    pub total_storage_paid: u128,
    /// The registered chains, in listing order.
    pub available_chains: Seq<Seq<char>>,
}

/// The hash of a record: the Keccak-256 digest of its canonical serialization.
pub open spec fn record_hash(record: TransactionView) -> Option<Seq<u8>> {
    match canonical_bytes(record) {
        Some(bytes) => Some(keccak256_digest(bytes)),
        None => None,
    }
}

/// The identity of a record in the replay set: its hash in hexadecimal.
pub open spec fn record_id(record: TransactionView) -> Option<Seq<char>> {
    match record_hash(record) {
        Some(hash) => Some(hex_text(hash)),
        None => None,
    }
}

/// What was found out about a release request before the ledger decides on it.
pub struct AttestationView {
    /// Whether the record's destination address is an account identifier.
    pub recipient_valid: bool,
    /// The record's hash in hexadecimal; `None` if the record could not be
    /// serialized.
    pub tx_hash: Option<Seq<char>>,
    /// How the check of the signature over the hash ended. Without a hash
    /// there is nothing to report.
    pub signature: SignatureCheck,
}

impl BridgeState {
    /// The state is valid: the running total is the sum of all storage
    /// credit, the fee ratio is below one, no chain is listed twice, and the
    /// relayer's key is an Ed25519 key.
    pub open spec fn inv(self) -> bool {
        &&& self.storage_paid.dom().finite()
        &&& credit_sum(self.storage_paid) == self.total_storage_paid
        &&& self.fee_numerator < FEE_DENOMINATOR
        &&& self.available_chains.no_duplicates()
        &&& is_ed25519(self.relayer_role)
    }

    /// The state with `cost` taken out of the storage credit of `account`.
    pub open spec fn charged(self, account: Seq<char>, cost: u128) -> BridgeState {
        BridgeState {
            storage_paid: debit_applied(self.storage_paid, account, cost),
            total_storage_paid: (self.total_storage_paid - cost) as u128,
            ..self
        }
    }

    /// The state with `amount` granted to the storage credit of `account`.
    pub open spec fn granted(self, account: Seq<char>, amount: u128) -> BridgeState {
        BridgeState {
            storage_paid: credit_applied(self.storage_paid, account, amount),
            total_storage_paid: (self.total_storage_paid + amount) as u128,
            ..self
        }
    }

    /// Why a deposit notification is refused, if it is. The checks are made
    /// in this order.
    pub open spec fn transfer_refusal(
        self,
        ctx: CallContextView,
        sender_id: Seq<char>,
        amount: u128,
        msg: Seq<char>,
    ) -> Option<BridgeError> {
        if ctx.predecessor != self.token {
            Some(BridgeError::UnsupportedToken)
        } else if ctx.predecessor == ctx.signer {
            Some(BridgeError::DirectCall)
        } else if sender_id != ctx.signer {
            Some(BridgeError::SenderNotSigner)
        } else if !message_well_formed(msg) {
            Some(BridgeError::MalformedMessage)
        } else if !self.available_chains.contains(message_chain(msg)) {
            Some(BridgeError::UnsupportedChain)
        } else if debit_refusal(
            self.storage_paid,
            sender_id,
            storage_price(self.costs.ft_on_transfer),
        ) is Some {
            debit_refusal(self.storage_paid, sender_id, storage_price(self.costs.ft_on_transfer))
        } else if amount > self.limit_per_send {
            Some(BridgeError::OverLimit)
        } else if self.nonce == u128::MAX {
            Some(BridgeError::Overflow)
        } else {
            None
        }
    }

    /// The record that an accepted deposit is journaled as.
    pub open spec fn transfer_record(
        self,
        ctx: CallContextView,
        sender_id: Seq<char>,
        amount: u128,
        msg: Seq<char>,
    ) -> TransactionView {
        TransactionView {
            from_user: sender_id,
            to_user: message_address(msg),
            amount,
            timestamp: ctx.block_timestamp / NANOS_PER_SECOND,
            from_chain: CURRENT_CHAIN@,
            to_chain: message_chain(msg),
            nonce: self.nonce,
        }
    }

    /// The state after an accepted deposit: the sender paid for one journal
    /// record, the record stands at the end of the sender's history, and the
    /// deposit counter moved on by one.
    pub open spec fn transfer_applied(
        self,
        ctx: CallContextView,
        sender_id: Seq<char>,
        amount: u128,
        msg: Seq<char>,
    ) -> BridgeState {
        BridgeState {
            transactions: appended(
                self.transactions,
                sender_id,
                self.transfer_record(ctx, sender_id, amount, msg),
            ),
            nonce: (self.nonce + 1) as u128,
            ..self.charged(sender_id, storage_price(self.costs.ft_on_transfer))
        }
    }

    /// Why a release request is refused, if it is, given what was found out
    /// about it. The checks are made in this order.
    pub open spec fn fulfill_refusal_given(
        self,
        ctx: CallContextView,
        transaction: TransactionView,
        found: AttestationView,
    ) -> Option<BridgeError> {
        if ctx.attached_deposit != 1 {
            Some(BridgeError::RequiresOneYocto)
        } else if ctx.prepaid_gas < GAS_FOR_FULFILL {
            Some(BridgeError::InsufficientGas)
        } else if !found.recipient_valid {
            Some(BridgeError::InvalidRecipient)
        } else if transaction.to_chain != CURRENT_CHAIN@ {
            Some(BridgeError::WrongDestinationChain)
        } else if !self.available_chains.contains(transaction.from_chain) {
            Some(BridgeError::UnsupportedOriginChain)
        } else if debit_refusal(
            self.storage_paid,
            transaction.to_user,
            storage_price(self.costs.fulfill),
        ) is Some {
            debit_refusal(self.storage_paid, transaction.to_user, storage_price(self.costs.fulfill))
        } else if found.tx_hash is None {
            Some(BridgeError::Serialization)
        } else if self.fulfilled.contains(found.tx_hash->Some_0) {
            Some(BridgeError::DuplicateFulfillment)
        } else {
            match found.signature {
                SignatureCheck::MalformedSignature => Some(BridgeError::MalformedSignature),
                SignatureCheck::MalformedKey => Some(BridgeError::MalformedRelayerKey),
                SignatureCheck::Rejected => Some(BridgeError::WrongSignature),
                SignatureCheck::Accepted => None,
            }
        }
    }

    /// What is found out about a release request: whether the recipient is an
    /// account identifier, the identity of the record, and whether the
    /// signature is the relayer's signature of the record's hash.
    pub open spec fn attestation(self, transaction: TransactionView, signature: Seq<u8>)
        -> AttestationView {
        AttestationView {
            recipient_valid: account_id_valid(transaction.to_user),
            tx_hash: record_id(transaction),
            signature: match record_hash(transaction) {
                Some(hash) => signature_check(raw_key(self.relayer_role), hash, signature),
                None => SignatureCheck::Rejected,
            },
        }
    }

    /// Why a release request is refused, if it is.
    pub open spec fn fulfill_refusal(
        self,
        ctx: CallContextView,
        transaction: TransactionView,
        signature: Seq<u8>,
    ) -> Option<BridgeError> {
        self.fulfill_refusal_given(ctx, transaction, self.attestation(transaction, signature))
    }

    /// The fee of a release of `amount` at the current fee ratio.
    pub open spec fn current_fee(self, amount: u128) -> u128 {
        fee_of(amount, self.fee_numerator) as u128
    }

    /// The data that an accepted release request hands on to its later stages.
    pub open spec fn fulfill_pending(self, transaction: TransactionView, tx_hash: Seq<char>)
        -> PendingView {
        PendingView {
            transaction,
            tx_hash,
            to_user: transaction.to_user,
            current_fee: self.current_fee(transaction.amount),
            storage_paid_for_call: storage_price(self.costs.fulfill),
        }
    }

    /// The state after an accepted release request: the recipient paid for
    /// the release, and the record is marked as released.
    pub open spec fn fulfill_applied(self, transaction: TransactionView, tx_hash: Seq<char>)
        -> BridgeState {
        BridgeState {
            fulfilled: self.fulfilled.insert(tx_hash),
            ..self.charged(transaction.to_user, storage_price(self.costs.fulfill))
        }
    }

    /// Why the principal cannot be transferred, if it cannot: the fee would
    /// exceed the amount.
    pub open spec fn dispense_refusal(self, pending: PendingView) -> Option<BridgeError> {
        if pending.current_fee > pending.transaction.amount {
            Some(BridgeError::Overflow)
        } else {
            None
        }
    }

    /// The transfer of the principal to the recipient.
    pub open spec fn dispense_action(self, pending: PendingView) -> ActionView {
        ActionView::Dispense {
            token: self.token,
            amount: (pending.transaction.amount - pending.current_fee) as u128,
            pending,
        }
    }

    /// What follows an accepted release request: with a fee, the query
    /// whether the fee wallet can receive it; without one, the transfer of
    /// the principal.
    pub open spec fn fulfill_action(self, transaction: TransactionView, tx_hash: Seq<char>)
        -> ActionView {
        let pending = self.fulfill_pending(transaction, tx_hash);
        if pending.current_fee != 0 {
            ActionView::QueryFeeWallet { token: self.token, fee_wallet: self.fee_wallet, pending }
        } else {
            self.dispense_action(pending)
        }
    }

    /// Why a release cannot be rolled back, if it cannot.
    pub open spec fn rollback_refusal(self, to_user: Seq<char>, storage_paid_for_call: u128)
        -> Option<BridgeError> {
        credit_refusal(self.storage_paid, self.total_storage_paid, to_user, storage_paid_for_call)
    }

    /// The state after a release was rolled back: the record is no longer
    /// marked, and the recipient has the price of the release back.
    pub open spec fn rolled_back(
        self,
        tx_hash: Seq<char>,
        to_user: Seq<char>,
        storage_paid_for_call: u128,
    ) -> BridgeState {
        BridgeState {
            fulfilled: self.fulfilled.remove(tx_hash),
            ..self.granted(to_user, storage_paid_for_call)
        }
    }

    /// Why the stage after the fee wallet query is refused, if it is.
    pub open spec fn resolve_fulfill_refusal(self, eligible: bool, pending: PendingView)
        -> Option<BridgeError> {
        if !eligible {
            self.rollback_refusal(pending.to_user, pending.storage_paid_for_call)
        } else {
            self.dispense_refusal(pending)
        }
    }

    /// The state after the fee wallet query: rolled back if the wallet cannot
    /// receive the fee, unchanged otherwise.
    pub open spec fn resolve_fulfill_applied(self, eligible: bool, pending: PendingView)
        -> BridgeState {
        if !eligible {
            self.rolled_back(pending.tx_hash, pending.to_user, pending.storage_paid_for_call)
        } else {
            self
        }
    }

    /// What follows the fee wallet query: the transfer of the principal if
    /// the wallet can receive the fee, nothing otherwise.
    pub open spec fn resolve_fulfill_action(self, eligible: bool, pending: PendingView)
        -> ActionView {
        if !eligible {
            ActionView::Done
        } else {
            self.dispense_action(pending)
        }
    }

    /// Why the stage after the transfer of the principal is refused, if it is.
    pub open spec fn resolve_dispense_refusal(self, outcome: PromiseResult, pending: PendingView)
        -> Option<BridgeError> {
        match outcome {
            PromiseResult::Failed => self.rollback_refusal(
                pending.to_user,
                pending.storage_paid_for_call,
            ),
            PromiseResult::Successful => None,
        }
    }

    /// The state after the transfer of the principal: rolled back if it
    /// failed; else the record stands at the end of the history of the
    /// account that made the deposit.
    pub open spec fn resolve_dispense_applied(self, outcome: PromiseResult, pending: PendingView)
        -> BridgeState {
        match outcome {
            PromiseResult::Failed => self.rolled_back(
                pending.tx_hash,
                pending.to_user,
                pending.storage_paid_for_call,
            ),
            PromiseResult::Successful => BridgeState {
                transactions: appended(
                    self.transactions,
                    pending.transaction.from_user,
                    pending.transaction,
                ),
                ..self
            },
        }
    }

    /// What follows the transfer of the principal: the payment of the fee, if
    /// the transfer succeeded and there is a fee.
    pub open spec fn resolve_dispense_action(self, outcome: PromiseResult, pending: PendingView)
        -> ActionView {
        if outcome == PromiseResult::Successful && pending.current_fee != 0 {
            ActionView::PayFee {
                token: self.token,
                fee_wallet: self.fee_wallet,
                amount: pending.current_fee,
            }
        } else {
            ActionView::Done
        }
    }

    /// Whether the state holds nothing in the place of a probe. `mark`
    /// is the replay mark of the probe record.
    pub open spec fn probe_absent(self, probe: Probe, mark: Seq<char>) -> bool {
        match probe {
            Probe::Registration => !self.storage_paid.dom().contains(PROBE_ACCOUNT@),
            Probe::JournalAppend => !self.transactions.dom().contains(PROBE_ACCOUNT@),
            Probe::ReplayMark => !self.fulfilled.contains(mark),
            Probe::ChainEntry => !self.available_chains.contains(PROBE_CHAIN@),
        }
    }

    /// The state with a probe placed. `mark` is the replay mark of the probe
    /// record.
    pub open spec fn probe_placed(self, probe: Probe, mark: Seq<char>) -> BridgeState {
        match probe {
            Probe::Registration => if self.storage_paid.dom().contains(PROBE_ACCOUNT@) {
                self
            } else {
                BridgeState { storage_paid: self.storage_paid.insert(PROBE_ACCOUNT@, 0), ..self }
            },
            Probe::JournalAppend => BridgeState {
                transactions: appended(self.transactions, PROBE_ACCOUNT@, probe_record()),
                ..self
            },
            Probe::ReplayMark => BridgeState { fulfilled: self.fulfilled.insert(mark), ..self },
            Probe::ChainEntry => if self.available_chains.contains(PROBE_CHAIN@) {
                self
            } else {
                BridgeState {
                    available_chains: self.available_chains.push(PROBE_CHAIN@),
                    ..self
                }
            },
        }
    }

    /// The state with a probe cleared. `mark` is the replay mark of the
    /// probe record. A storage credit entry is cleared only while it is
    /// empty.
    pub open spec fn probe_cleared(self, probe: Probe, mark: Seq<char>) -> BridgeState {
        match probe {
            Probe::Registration => if self.storage_paid.dom().contains(PROBE_ACCOUNT@)
                && self.storage_paid[PROBE_ACCOUNT@] == 0 {
                BridgeState { storage_paid: self.storage_paid.remove(PROBE_ACCOUNT@), ..self }
            } else {
                self
            },
            Probe::JournalAppend => BridgeState {
                transactions: self.transactions.remove(PROBE_ACCOUNT@),
                ..self
            },
            Probe::ReplayMark => BridgeState { fulfilled: self.fulfilled.remove(mark), ..self },
            Probe::ChainEntry => if self.available_chains.contains(PROBE_CHAIN@) {
                self.chain_removed(PROBE_CHAIN@)
            } else {
                self
            },
        }
    }

    /// Why a payment for storage credit is refused, if it is.
    pub open spec fn storage_deposit_refusal(self, ctx: CallContextView) -> Option<BridgeError> {
        deposit_refusal(
            self.storage_paid,
            self.total_storage_paid,
            ctx.predecessor,
            ctx.attached_deposit,
            storage_price(self.costs.register),
        )
    }

    /// The state after an accepted payment for storage credit.
    pub open spec fn storage_deposit_applied(self, ctx: CallContextView) -> BridgeState {
        BridgeState {
            storage_paid: deposit_applied(
                self.storage_paid,
                ctx.predecessor,
                ctx.attached_deposit,
                storage_price(self.costs.register),
            ),
            total_storage_paid: (self.total_storage_paid + deposit_gain(
                self.storage_paid,
                ctx.predecessor,
                ctx.attached_deposit,
                storage_price(self.costs.register),
            )) as u128,
            ..self
        }
    }

    /// Why a caller who is not the owner is refused.
    pub open spec fn owner_refusal(self, caller: Seq<char>) -> Option<BridgeError> {
        if caller != self.owner {
            Some(BridgeError::NotOwner)
        } else {
            None
        }
    }

    /// Why the registration of a chain is refused, if it is.
    pub open spec fn add_chain_refusal(self, ctx: CallContextView, chain: Seq<char>) -> Option<
        BridgeError,
    > {
        if ctx.predecessor != self.owner {
            Some(BridgeError::NotOwner)
        } else if self.available_chains.contains(chain) {
            Some(BridgeError::ChainAlreadyListed)
        } else if ctx.attached_deposit < storage_price(self.costs.add_chain) {
            Some(BridgeError::InsufficientAttachment)
        } else {
            None
        }
    }

    /// Why a chain that was just registered is taken off the list again, if
    /// it is: the payment attached to the call does not cover the bytes that
    /// the entry was measured to take.
    pub open spec fn settle_refusal(ctx: CallContextView, bytes_added: u64) -> Option<BridgeError> {
        if ctx.attached_deposit < storage_price(bytes_added) {
            Some(BridgeError::InsufficientAttachment)
        } else {
            None
        }
    }

    /// Why a new owner is refused, if it is.
    pub open spec fn transfer_ownership_refusal(self, ctx: CallContextView, owner: Seq<char>)
        -> Option<BridgeError> {
        if ctx.predecessor != self.owner {
            Some(BridgeError::NotOwner)
        } else if owner == self.owner {
            Some(BridgeError::SameOwner)
        } else {
            None
        }
    }

    /// Why a new fee wallet is refused, if it is.
    pub open spec fn set_fee_wallet_refusal(self, ctx: CallContextView, fee_wallet: Seq<char>)
        -> Option<BridgeError> {
        if ctx.predecessor != self.owner {
            Some(BridgeError::NotOwner)
        } else if fee_wallet == self.fee_wallet {
            Some(BridgeError::SameFeeWallet)
        } else {
            None
        }
    }

    /// Why a new limit per send is refused, if it is.
    pub open spec fn set_limit_refusal(self, ctx: CallContextView, limit_per_send: u128) -> Option<
        BridgeError,
    > {
        if ctx.predecessor != self.owner {
            Some(BridgeError::NotOwner)
        } else if limit_per_send == self.limit_per_send {
            Some(BridgeError::SameLimit)
        } else {
            None
        }
    }

    /// Why the removal of a chain is refused, if it is.
    pub open spec fn remove_chain_refusal(self, ctx: CallContextView, chain: Seq<char>) -> Option<
        BridgeError,
    > {
        if ctx.predecessor != self.owner {
            Some(BridgeError::NotOwner)
        } else if !self.available_chains.contains(chain) {
            Some(BridgeError::ChainNotListed)
        } else {
            None
        }
    }

    /// The state without the chain `chain`.
    pub open spec fn chain_removed(self, chain: Seq<char>) -> BridgeState {
        BridgeState { available_chains: without(self.available_chains, chain), ..self }
    }

    /// Why a new fee numerator is refused, if it is.
    pub open spec fn set_fee_refusal(self, ctx: CallContextView, fee_numerator: u16) -> Option<
        BridgeError,
    > {
        if ctx.predecessor != self.owner {
            Some(BridgeError::NotOwner)
        } else if fee_numerator == self.fee_numerator {
            Some(BridgeError::SameFee)
        } else if fee_numerator >= FEE_DENOMINATOR {
            Some(BridgeError::FeeTooHigh)
        } else {
            None
        }
    }

    /// Why a new relayer key is refused, if it is, given what the key text
    /// was parsed to.
    pub open spec fn set_relayer_refusal_given(
        self,
        ctx: CallContextView,
        parsed: Result<Seq<u8>, BridgeError>,
    ) -> Option<BridgeError> {
        if ctx.predecessor != self.owner {
            Some(BridgeError::NotOwner)
        } else {
            match parsed {
                Err(error) => Some(error),
                Ok(key) => if key == self.relayer_role {
                    Some(BridgeError::SameRelayer)
                } else {
                    None
                },
            }
        }
    }

    /// Why a new relayer key is refused, if it is.
    pub open spec fn set_relayer_refusal(self, ctx: CallContextView, relayer: Seq<char>) -> Option<
        BridgeError,
    > {
        self.set_relayer_refusal_given(ctx, parse_outcome(relayer))
    }

    /// Why the owner's withdrawal of tokens is refused, if it is.
    pub open spec fn withdraw_refusal(self, ctx: CallContextView) -> Option<BridgeError> {
        if ctx.attached_deposit != 1 {
            Some(BridgeError::RequiresOneYocto)
        } else if ctx.predecessor != self.owner {
            Some(BridgeError::NotOwner)
        } else {
            None
        }
    }

    /// Why the owner's withdrawal of native currency is refused, if it is:
    /// what is left must cover all storage credit.
    pub open spec fn withdraw_native_refusal(self, ctx: CallContextView, amount: u128) -> Option<
        BridgeError,
    > {
        if ctx.attached_deposit != 1 {
            Some(BridgeError::RequiresOneYocto)
        } else if ctx.predecessor != self.owner {
            Some(BridgeError::NotOwner)
        } else if amount > ctx.account_balance {
            Some(BridgeError::AmountExceedsBalance)
        } else if ctx.account_balance - amount < self.total_storage_paid {
            Some(BridgeError::Insolvent)
        } else {
            None
        }
    }
}

} // verus!
