use crate::error::BridgeError;
use crate::keys::clone_keys;
use crate::keys::distinct;
use crate::keys::find_key;
use crate::keys::keyed_map;
use crate::keys::lemma_keyed_push;
use crate::keys::lemma_keyed_swap_remove;
use crate::keys::lemma_keyed_update;
use crate::keys::texts;
use crate::sums::balances_sum;
use crate::sums::credit_sum;
use crate::sums::lemma_keyed_sum;
use crate::sums::lemma_prefix_sum;
use crate::sums::lemma_sum_bounds_entry;
use crate::sums::lemma_sum_insert;
use vstd::prelude::*;

verus! {

/// The refusal that a result carries, if it carries one.
pub open spec fn refusal<T>(result: Result<T, BridgeError>) -> Option<BridgeError> {
    match result {
        Ok(_) => None,
        Err(error) => Some(error),
    }
}

/// What a payment adds to the payer's credit: all of it for a registered
/// account, what is left after the registration cost for a new one.
pub open spec fn deposit_gain(
    credits: Map<Seq<char>, u128>,
    account: Seq<char>,
    attached: u128,
    registration_cost: u128,
) -> int {
    if credits.dom().contains(account) {
        attached as int
    } else {
        attached - registration_cost
    }
}

/// Why a payment into the ledger is refused, if it is.
pub open spec fn deposit_refusal(
    credits: Map<Seq<char>, u128>,
    total: u128,
    account: Seq<char>,
    attached: u128,
    registration_cost: u128,
) -> Option<BridgeError> {
    if !credits.dom().contains(account) && attached < registration_cost {
        Some(BridgeError::InsufficientAttachment)
    } else if total + deposit_gain(credits, account, attached, registration_cost) > u128::MAX {
        Some(BridgeError::Overflow)
    } else {
        None
    }
}

/// The credit map after an accepted payment.
pub open spec fn deposit_applied(
    credits: Map<Seq<char>, u128>,
    account: Seq<char>,
    attached: u128,
    registration_cost: u128,
) -> Map<Seq<char>, u128> {
    if credits.dom().contains(account) {
        credits.insert(account, (credits[account] + attached) as u128)
    } else {
        credits.insert(account, (attached - registration_cost) as u128)
    }
}

/// Why taking `amount` out of an account's credit is refused, if it is.
pub open spec fn debit_refusal(credits: Map<Seq<char>, u128>, account: Seq<char>, amount: u128)
    -> Option<BridgeError> {
    if !credits.dom().contains(account) {
        Some(BridgeError::NotRegistered)
    } else if credits[account] < amount {
        Some(BridgeError::InsufficientCredit)
    } else {
        None
    }
}

/// The credit map after `amount` was taken out of an account's credit.
pub open spec fn debit_applied(credits: Map<Seq<char>, u128>, account: Seq<char>, amount: u128)
    -> Map<Seq<char>, u128> {
    credits.insert(account, (credits[account] - amount) as u128)
}

/// Why granting `amount` to an account is refused, if it is.
pub open spec fn credit_refusal(
    credits: Map<Seq<char>, u128>,
    total: u128,
    account: Seq<char>,
    amount: u128,
) -> Option<BridgeError> {
    if !credits.dom().contains(account) {
        Some(BridgeError::NotRegistered)
    } else if total + amount > u128::MAX {
        Some(BridgeError::Overflow)
    } else {
        None
    }
}

/// The credit map after `amount` was granted to an account.
pub open spec fn credit_applied(credits: Map<Seq<char>, u128>, account: Seq<char>, amount: u128)
    -> Map<Seq<char>, u128> {
    credits.insert(account, (credits[account] + amount) as u128)
}

/// Prepaid storage credit per account, with the running total of all credit.
pub struct CreditLedger {
    accounts: Vec<String>,
    balances: Vec<u128>,
    total: u128,
}

impl View for CreditLedger {
    type V = Map<Seq<char>, u128>;

    /// The credit of each registered account.
    closed spec fn view(&self) -> Map<Seq<char>, u128> {
        keyed_map(texts(self.accounts@), self.balances@)
    }
}

impl CreditLedger {
    /// The representation is consistent: one balance per account, no account
    /// twice.
    pub closed spec fn well_represented(&self) -> bool {
        &&& self.accounts.len() == self.balances.len()
        &&& texts(self.accounts@).no_duplicates()
    }

    /// The running total.
    pub closed spec fn total(&self) -> u128 {
        self.total
    }

    /// The ledger is valid: the running total is the sum of all credit.
    pub open spec fn wf(&self) -> bool {
        &&& self.well_represented()
        &&& self@.dom().finite()
        &&& credit_sum(self@) == self.total()
    }

    /// A ledger without accounts.
    pub fn new() -> (ledger: Self)
        ensures
            ledger.wf(),
            ledger@ == Map::<Seq<char>, u128>::empty(),
            ledger.total() == 0,
    {
        let ledger = CreditLedger { accounts: Vec::new(), balances: Vec::new(), total: 0 };
        assert(ledger@ =~= Map::<Seq<char>, u128>::empty());
        ledger
    }

    /// The sum of all credit.
    pub fn total_credit(&self) -> (total: u128)
        ensures
            total == self.total(),
    {
        self.total
    }

    /// Whether the account is registered.
    pub fn contains_key(&self, account: &String) -> (registered: bool)
        ensures
            registered == self@.dom().contains(account@),
    {
        find_key(&self.accounts, account).is_some()
    }

    /// The credit of an account, if it is registered.
    pub fn get(&self, account: &String) -> (balance: Option<u128>)
        requires
            self.wf(),
        ensures
            balance == (if self@.dom().contains(account@) {
                Some(self@[account@])
            } else {
                None
            }),
    {
        match find_key(&self.accounts, account) {
            Some(i) => {
                proof {
                    lemma_keyed_update(texts(self.accounts@), self.balances@, i as int, 0u128);
                }
                Some(self.balances[i])
            },
            None => None,
        }
    }

    /// Takes a payment of `attached` for `account`. A new account is
    /// registered, at the price of `registration_cost`; the rest of the payment
    /// becomes its credit. For a registered account the whole payment is added
    /// to its credit.
    pub fn deposit(&mut self, account: &String, attached: u128, registration_cost: u128) -> (result:
        Result<(), BridgeError>)
        requires
            old(self).wf(),
        ensures
            final(self).wf(),
            refusal(result) == deposit_refusal(
                old(self)@,
                old(self).total(),
                account@,
                attached,
                registration_cost,
            ),
            result is Ok ==> final(self)@ == deposit_applied(
                old(self)@,
                account@,
                attached,
                registration_cost,
            ) && final(self).total() == old(self).total() + deposit_gain(
                old(self)@,
                account@,
                attached,
                registration_cost,
            ),
            result is Err ==> final(self)@ == old(self)@,
            result is Err ==> final(self).total() == old(self).total(),
    {
        match find_key(&self.accounts, account) {
            None => {
                if attached < registration_cost {
                    return Err(BridgeError::InsufficientAttachment);
                }
                let excess: u128 = attached - registration_cost;
                if excess > u128::MAX - self.total {
                    return Err(BridgeError::Overflow);
                }
                proof {
                    lemma_keyed_push(texts(self.accounts@), self.balances@, account@, excess);
                    lemma_sum_insert(self@, account@, excess);
                    assert(texts(self.accounts@.push(*account)) =~= texts(self.accounts@).push(
                        account@,
                    ));
                }
                self.accounts.push(account.clone());
                self.balances.push(excess);
                self.total = self.total + excess;
                Ok(())
            },
            Some(i) => {
                if attached > u128::MAX - self.total {
                    return Err(BridgeError::Overflow);
                }
                let balance: u128 = self.balances[i];
                proof {
                    lemma_keyed_update(texts(self.accounts@), self.balances@, i as int, 0u128);
                    lemma_sum_bounds_entry(self@, account@);
                    lemma_keyed_update(
                        texts(self.accounts@),
                        self.balances@,
                        i as int,
                        (balance + attached) as u128,
                    );
                    lemma_sum_insert(self@, account@, (balance + attached) as u128);
                }
                self.balances[i] = balance + attached;
                self.total = self.total + attached;
                Ok(())
            },
        }
    }

    /// Takes `amount` out of the credit of `account`.
    pub fn debit(&mut self, account: &String, amount: u128) -> (result: Result<(), BridgeError>)
        requires
            old(self).wf(),
        ensures
            final(self).wf(),
            refusal(result) == debit_refusal(old(self)@, account@, amount),
            result is Ok ==> final(self)@ == debit_applied(old(self)@, account@, amount)
                && final(self).total() == old(self).total() - amount,
            result is Err ==> final(self)@ == old(self)@,
            result is Err ==> final(self).total() == old(self).total(),
    {
        match find_key(&self.accounts, account) {
            None => Err(BridgeError::NotRegistered),
            Some(i) => {
                let balance: u128 = self.balances[i];
                proof {
                    lemma_keyed_update(texts(self.accounts@), self.balances@, i as int, 0u128);
                }
                if balance < amount {
                    return Err(BridgeError::InsufficientCredit);
                }
                proof {
                    lemma_sum_bounds_entry(self@, account@);
                    lemma_keyed_update(
                        texts(self.accounts@),
                        self.balances@,
                        i as int,
                        (balance - amount) as u128,
                    );
                    lemma_sum_insert(self@, account@, (balance - amount) as u128);
                }
                self.balances[i] = balance - amount;
                self.total = self.total - amount;
                Ok(())
            },
        }
    }

    /// Takes `amount` out of the credit of `account`, to be paid out to it.
    pub fn withdraw(&mut self, account: &String, amount: u128) -> (result: Result<(), BridgeError>)
        requires
            old(self).wf(),
        ensures
            final(self).wf(),
            refusal(result) == debit_refusal(old(self)@, account@, amount),
            result is Ok ==> final(self)@ == debit_applied(old(self)@, account@, amount)
                && final(self).total() == old(self).total() - amount,
            result is Err ==> final(self)@ == old(self)@,
            result is Err ==> final(self).total() == old(self).total(),
    {
        self.debit(account, amount)
    }

    /// Grants `amount` to the registered account `account`.
    pub fn credit(&mut self, account: &String, amount: u128) -> (result: Result<(), BridgeError>)
        requires
            old(self).wf(),
        ensures
            final(self).wf(),
            refusal(result) == credit_refusal(old(self)@, old(self).total(), account@, amount),
            result is Ok ==> final(self)@ == credit_applied(old(self)@, account@, amount)
                && final(self).total() == old(self).total() + amount,
            result is Err ==> final(self)@ == old(self)@,
            result is Err ==> final(self).total() == old(self).total(),
    {
        match find_key(&self.accounts, account) {
            None => Err(BridgeError::NotRegistered),
            Some(i) => {
                if amount > u128::MAX - self.total {
                    return Err(BridgeError::Overflow);
                }
                let balance: u128 = self.balances[i];
                proof {
                    lemma_keyed_update(texts(self.accounts@), self.balances@, i as int, 0u128);
                    lemma_sum_bounds_entry(self@, account@);
                    lemma_keyed_update(
                        texts(self.accounts@),
                        self.balances@,
                        i as int,
                        (balance + amount) as u128,
                    );
                    lemma_sum_insert(self@, account@, (balance + amount) as u128);
                }
                self.balances[i] = balance + amount;
                self.total = self.total + amount;
                Ok(())
            },
        }
    }

    /// Forgets an account that holds no credit.
    pub fn remove_empty(&mut self, account: &String) -> (removed: bool)
        requires
            old(self).wf(),
        ensures
            final(self).wf(),
            removed == (old(self)@.dom().contains(account@) && old(self)@[account@] == 0),
            removed ==> final(self)@ == old(self)@.remove(account@),
            !removed ==> final(self)@ == old(self)@,
            final(self).total() == old(self).total(),
    {
        match find_key(&self.accounts, account) {
            None => false,
            Some(i) => {
                proof {
                    lemma_keyed_update(texts(self.accounts@), self.balances@, i as int, 0u128);
                }
                if self.balances[i] != 0 {
                    return false;
                }
                proof {
                    lemma_keyed_swap_remove(texts(self.accounts@), self.balances@, i as int);
                    lemma_sum_insert(self@, account@, 0u128);
                    assert(texts(self.accounts@.update(i as int, self.accounts@.last()).drop_last())
                        =~= texts(self.accounts@).update(
                        i as int,
                        texts(self.accounts@).last(),
                    ).drop_last());
                }
                self.accounts.swap_remove(i);
                self.balances.swap_remove(i);
                true
            },
        }
    }

    /// The accounts and their credit, position by position.
    pub fn entries(&self) -> (entries: (Vec<String>, Vec<u128>))
        requires
            self.wf(),
        ensures
            entries_valid(entries.0@, entries.1@),
            keyed_map(texts(entries.0@), entries.1@) == self@,
    {
        let accounts = clone_keys(&self.accounts);
        let balances = self.balances.clone();
        proof {
            lemma_keyed_sum(texts(self.accounts@), self.balances@);
        }
        (accounts, balances)
    }

    /// The ledger that holds the given credit for the given accounts,
    /// position by position. `None` unless there is one balance for each
    /// account, no account occurs twice, and the sum of all balances is in
    /// range.
    pub fn from_entries(accounts: Vec<String>, balances: Vec<u128>) -> (ledger: Option<
        CreditLedger,
    >)
        ensures
            ledger is Some <==> entries_valid(accounts@, balances@),
            ledger is Some ==> ledger->Some_0.wf() && ledger->Some_0@ == keyed_map(
                texts(accounts@),
                balances@,
            ) && ledger->Some_0.total() == balances_sum(balances@),
    {
        if accounts.len() != balances.len() || !distinct(&accounts) {
            return None;
        }
        let mut total: u128 = 0;
        let mut i: usize = 0;
        while i < balances.len()
            invariant
                i <= balances.len(),
                total == balances_sum(balances@.take(i as int)),
            decreases balances.len() - i,
        {
            proof {
                assert(balances@.take(i + 1).drop_last() =~= balances@.take(i as int));
                lemma_prefix_sum(balances@, i + 1);
            }
            if balances[i] > u128::MAX - total {
                return None;
            }
            total = total + balances[i];
            i += 1;
        }
        proof {
            assert(balances@.take(balances.len() as int) =~= balances@);
            lemma_keyed_sum(texts(accounts@), balances@);
        }
        Some(CreditLedger { accounts, balances, total })
    }
}

/// Whether lists of accounts and balances describe a credit ledger: one
/// balance for each account, no account twice, and a sum of all balances that
/// is in range.
pub open spec fn entries_valid(accounts: Seq<String>, balances: Seq<u128>) -> bool {
    &&& accounts.len() == balances.len()
    &&& texts(accounts).no_duplicates()
    &&& balances_sum(balances) <= u128::MAX
}

} // verus!
