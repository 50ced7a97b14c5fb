use crate::keys::clone_keys;
use crate::keys::distinct;
use crate::keys::find_key;
use crate::keys::keyed_map;
use crate::keys::lemma_keyed_push;
use crate::keys::lemma_keyed_swap_remove;
use crate::keys::lemma_keyed_update;
use crate::keys::texts;
use crate::record::clone_records;
use crate::record::records_view;
use crate::record::Transaction;
use crate::record::TransactionView;
use vstd::prelude::*;

verus! {

/// The history of an account in a journal map; empty where the map has none.
pub open spec fn log_of(journal: Map<Seq<char>, Seq<TransactionView>>, account: Seq<char>) -> Seq<
    TransactionView,
> {
    if journal.dom().contains(account) {
        journal[account]
    } else {
        Seq::empty()
    }
}

/// A journal map after one more record was written to an account's history.
pub open spec fn appended(
    journal: Map<Seq<char>, Seq<TransactionView>>,
    account: Seq<char>,
    record: TransactionView,
) -> Map<Seq<char>, Seq<TransactionView>> {
    journal.insert(account, log_of(journal, account).push(record))
}

/// The contents of a list of histories.
pub open spec fn logs_view(logs: Seq<Vec<Transaction>>) -> Seq<Seq<TransactionView>> {
    logs.map_values(|log: Vec<Transaction>| records_view(log@))
}

/// The append-only histories of completed bridge transfers, one per account.
pub struct Journal {
    accounts: Vec<String>,
    logs: Vec<Vec<Transaction>>,
}

impl View for Journal {
    type V = Map<Seq<char>, Seq<TransactionView>>;

    /// The history of each account that has one.
    closed spec fn view(&self) -> Map<Seq<char>, Seq<TransactionView>> {
        keyed_map(texts(self.accounts@), logs_view(self.logs@))
    }
}

impl Journal {
    /// The representation is consistent: one history per account, no account
    /// twice.
    pub closed spec fn wf(&self) -> bool {
        &&& self.accounts.len() == self.logs.len()
        &&& texts(self.accounts@).no_duplicates()
    }

    /// A journal without histories.
    pub fn new() -> (journal: Self)
        ensures
            journal.wf(),
            journal@ == Map::<Seq<char>, Seq<TransactionView>>::empty(),
    {
        let journal = Journal { accounts: Vec::new(), logs: Vec::new() };
        assert(journal@ =~= Map::<Seq<char>, Seq<TransactionView>>::empty());
        journal
    }

    /// The accounts and their histories, position by position.
    pub fn entries(&self) -> (entries: (Vec<String>, Vec<Vec<Transaction>>))
        requires
            self.wf(),
        ensures
            entries.0.len() == entries.1.len(),
            texts(entries.0@).no_duplicates(),
            keyed_map(texts(entries.0@), logs_view(entries.1@)) == self@,
    {
        let accounts = clone_keys(&self.accounts);
        let mut logs: Vec<Vec<Transaction>> = Vec::new();
        let mut i: usize = 0;
        while i < self.logs.len()
            invariant
                i <= self.logs.len(),
                logs.len() == i,
                forall|j: int| 0 <= j < i ==> records_view(logs[j]@) == records_view(self.logs[j]@),
            decreases self.logs.len() - i,
        {
            logs.push(clone_records(&self.logs[i]));
            i += 1;
        }
        assert(logs_view(logs@) =~= logs_view(self.logs@));
        assert(texts(accounts@).len() == accounts.len());
        assert(texts(self.accounts@).len() == self.accounts.len());
        (accounts, logs)
    }

    /// The journal that holds the given histories for the given accounts,
    /// position by position. `None` unless there is one history for each
    /// account and no account occurs twice.
    pub fn from_entries(accounts: Vec<String>, logs: Vec<Vec<Transaction>>) -> (journal: Option<
        Journal,
    >)
        ensures
            journal is Some <==> accounts.len() == logs.len() && texts(accounts@).no_duplicates(),
            journal is Some ==> journal->Some_0.wf() && journal->Some_0@ == keyed_map(
                texts(accounts@),
                logs_view(logs@),
            ),
    {
        if accounts.len() == logs.len() && distinct(&accounts) {
            Some(Journal { accounts, logs })
        } else {
            None
        }
    }

    /// Writes a record at the end of an account's history.
    pub fn append(&mut self, account: &String, record: Transaction)
        requires
            old(self).wf(),
        ensures
            final(self).wf(),
            final(self)@ == appended(old(self)@, account@, record@),
    {
        match find_key(&self.accounts, account) {
            None => {
                let mut log: Vec<Transaction> = Vec::new();
                log.push(record);
                proof {
                    lemma_keyed_push(
                        texts(self.accounts@),
                        logs_view(self.logs@),
                        account@,
                        records_view(log@),
                    );
                    assert(texts(self.accounts@.push(*account)) =~= texts(self.accounts@).push(
                        account@,
                    ));
                    assert(logs_view(self.logs@.push(log)) =~= logs_view(self.logs@).push(
                        records_view(log@),
                    ));
                    assert(records_view(log@) =~= Seq::<TransactionView>::empty().push(record@));
                }
                self.accounts.push(account.clone());
                self.logs.push(log);
            },
            Some(i) => {
                let ghost before = self.logs@;
                proof {
                    lemma_keyed_update(
                        texts(self.accounts@),
                        logs_view(before),
                        i as int,
                        records_view(before[i as int]@).push(record@),
                    );
                }
                self.logs[i].push(record);
                proof {
                    assert(records_view(self.logs@[i as int]@) =~= records_view(
                        before[i as int]@,
                    ).push(record@));
                    assert(logs_view(self.logs@) =~= logs_view(before).update(
                        i as int,
                        records_view(before[i as int]@).push(record@),
                    ));
                }
            },
        }
    }

    /// The number of records in an account's history.
    pub fn len(&self, account: &String) -> (count: usize)
        requires
            self.wf(),
        ensures
            count == log_of(self@, account@).len(),
    {
        match find_key(&self.accounts, account) {
            None => 0,
            Some(i) => {
                proof {
                    lemma_keyed_update(
                        texts(self.accounts@),
                        logs_view(self.logs@),
                        i as int,
                        Seq::empty(),
                    );
                }
                self.logs[i].len()
            },
        }
    }

    /// The record at a position of an account's history.
    pub fn get(&self, account: &String, index: usize) -> (record: Option<Transaction>)
        requires
            self.wf(),
        ensures
            match record {
                Some(record) => index < log_of(self@, account@).len() && record@ == log_of(
                    self@,
                    account@,
                )[index as int],
                None => index >= log_of(self@, account@).len(),
            },
    {
        match find_key(&self.accounts, account) {
            None => None,
            Some(i) => {
                proof {
                    lemma_keyed_update(
                        texts(self.accounts@),
                        logs_view(self.logs@),
                        i as int,
                        Seq::empty(),
                    );
                }
                if index < self.logs[i].len() {
                    Some(self.logs[i][index].clone())
                } else {
                    None
                }
            },
        }
    }

    /// A copy of an account's history.
    pub fn all(&self, account: &String) -> (records: Vec<Transaction>)
        requires
            self.wf(),
        ensures
            records_view(records@) == log_of(self@, account@),
    {
        match find_key(&self.accounts, account) {
            None => {
                let records: Vec<Transaction> = Vec::new();
                assert(records_view(records@) =~= Seq::<TransactionView>::empty());
                records
            },
            Some(i) => {
                proof {
                    lemma_keyed_update(
                        texts(self.accounts@),
                        logs_view(self.logs@),
                        i as int,
                        Seq::empty(),
                    );
                }
                clone_records(&self.logs[i])
            },
        }
    }

    /// Forgets an account's history.
    pub fn remove(&mut self, account: &String)
        requires
            old(self).wf(),
        ensures
            final(self).wf(),
            final(self)@ == old(self)@.remove(account@),
    {
        match find_key(&self.accounts, account) {
            None => {
                assert(self@.remove(account@) =~= self@);
            },
            Some(i) => {
                proof {
                    lemma_keyed_update(
                        texts(self.accounts@),
                        logs_view(self.logs@),
                        i as int,
                        Seq::empty(),
                    );
                    lemma_keyed_swap_remove(texts(self.accounts@), logs_view(self.logs@), i as int);
                    assert(texts(self.accounts@.update(i as int, self.accounts@.last()).drop_last())
                        =~= texts(self.accounts@).update(
                        i as int,
                        texts(self.accounts@).last(),
                    ).drop_last());
                    assert(logs_view(self.logs@.update(i as int, self.logs@.last()).drop_last())
                        =~= logs_view(self.logs@).update(
                        i as int,
                        logs_view(self.logs@).last(),
                    ).drop_last());
                }
                self.accounts.swap_remove(i);
                self.logs.swap_remove(i);
            },
        }
    }
}

} // verus!
