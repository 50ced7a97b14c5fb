use crate::bridge::BridgeAssist;
use crate::codec::hex_encode;
use crate::error::BridgeError;
use crate::model::BridgeState;
use crate::model::PROBE_ACCOUNT;
use crate::model::PROBE_ADDRESS;
use crate::model::PROBE_CHAIN;
use crate::model::Probe;
use crate::model::StorageCosts;
use crate::model::StorageReadings;
use crate::model::UsageReading;
use crate::model::bytes_taken;
use crate::model::measured_costs;
use crate::model::probe_record;
use crate::model::record_id;
use crate::record::Transaction;
use vstd::prelude::*;

verus! {

/// The bytes that a reading says a state change took.
pub fn taken(reading: UsageReading) -> (bytes: Option<u64>)
    ensures
        bytes == bytes_taken(reading),
{
    if reading.after < reading.before {
        None
    } else {
        Some(reading.after - reading.before)
    }
}

impl BridgeAssist {
    /// The measured storage costs.
    pub fn get_storage_costs(&self) -> (costs: StorageCosts)
        ensures
            costs == self@.costs,
    {
        self.costs
    }

    /// The record that is journaled to measure an append.
    pub fn probe_transaction() -> (record: Transaction)
        ensures
            record@ == probe_record(),
    {
        Transaction {
            from_user: PROBE_ACCOUNT.to_owned(),
            to_user: PROBE_ADDRESS.to_owned(),
            amount: 0,
            timestamp: 0,
            from_chain: PROBE_ACCOUNT.to_owned(),
            to_chain: PROBE_ACCOUNT.to_owned(),
            nonce: 0,
        }
    }

    /// The replay mark of the probe record: its hash in hexadecimal.
    pub fn probe_mark(&self) -> (result: Result<String, BridgeError>)
        ensures
            match result {
                Ok(mark) => record_id(probe_record()) == Some(mark@),
                Err(error) => error == BridgeError::Serialization && record_id(probe_record())
                    is None,
            },
    {
        let record = Self::probe_transaction();
        match self.get_tx_hash(&record) {
            Ok(hash) => Ok(hex_encode(&hash)),
            Err(error) => Err(error),
        }
    }

    /// Places a probe: a synthetic entry whose size in persisted bytes is
    /// to be read off. `mark` is the replay mark of the probe record.
    pub fn place_probe(&mut self, probe: Probe, mark: &String)
        requires
            old(self).wf(),
        ensures
            final(self).wf(),
            final(self)@ == old(self)@.probe_placed(probe, mark@),
    {
        match probe {
            Probe::Registration => {
                let account: String = PROBE_ACCOUNT.to_owned();
                if !self.storage_paid.contains_key(&account) {
                    let placed = self.storage_paid.deposit(&account, 0, 0);
                }
            },
            Probe::JournalAppend => {
                let account: String = PROBE_ACCOUNT.to_owned();
                self.transactions.append(&account, Self::probe_transaction());
            },
            Probe::ReplayMark => {
                self.fulfilled.insert(mark);
            },
            Probe::ChainEntry => {
                let chain: String = PROBE_CHAIN.to_owned();
                self.available_chains.insert(&chain);
            },
        }
    }

    /// Clears a probe. `mark` is the replay mark of the probe record.
    pub fn clear_probe(&mut self, probe: Probe, mark: &String)
        requires
            old(self).wf(),
        ensures
            final(self).wf(),
            final(self)@ == old(self)@.probe_cleared(probe, mark@),
    {
        match probe {
            Probe::Registration => {
                let account: String = PROBE_ACCOUNT.to_owned();
                self.storage_paid.remove_empty(&account);
            },
            Probe::JournalAppend => {
                let account: String = PROBE_ACCOUNT.to_owned();
                self.transactions.remove(&account);
            },
            Probe::ReplayMark => {
                self.fulfilled.remove(mark);
            },
            Probe::ChainEntry => {
                let chain: String = PROBE_CHAIN.to_owned();
                self.available_chains.remove(&chain);
            },
        }
    }

    /// Fixes the storage costs from readings of the persisted bytes in use,
    /// taken before and after each probe was placed.
    pub fn measure_bytes_for_functions(&mut self, readings: &StorageReadings) -> (result: Result<
        (),
        BridgeError,
    >)
        requires
            old(self).wf(),
        ensures
            final(self).wf(),
            result is Ok <==> measured_costs(*readings) is Some,
            result is Err ==> result == Err::<(), BridgeError>(BridgeError::Overflow),
            result is Ok ==> final(self)@ == (BridgeState {
                costs: measured_costs(*readings)->Some_0,
                ..old(self)@
            }),
            result is Err ==> final(self)@ == old(self)@,
    {
        let register: u64 = match taken(readings.register) {
            Some(bytes) => bytes,
            None => {
                return Err(BridgeError::Overflow);
            },
        };
        let ft_on_transfer: u64 = match taken(readings.ft_on_transfer) {
            Some(bytes) => bytes,
            None => {
                return Err(BridgeError::Overflow);
            },
        };
        let mark: u64 = match taken(readings.fulfill) {
            Some(bytes) => bytes,
            None => {
                return Err(BridgeError::Overflow);
            },
        };
        let add_chain: u64 = match taken(readings.add_chain) {
            Some(bytes) => bytes,
            None => {
                return Err(BridgeError::Overflow);
            },
        };
        if mark > u64::MAX - ft_on_transfer {
            return Err(BridgeError::Overflow);
        }
        self.costs = StorageCosts {
            register,
            ft_on_transfer,
            fulfill: mark + ft_on_transfer,
            add_chain,
        };
        Ok(())
    }
}

} // verus!
