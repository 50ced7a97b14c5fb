use vstd::prelude::*;

verus! {

/// One bridge transfer, as journaled on either side of the bridge.
///
/// A record is immutable once journaled. Together with the nonce, its fields
/// make it unique even when a user repeats a transfer.
#[derive(Debug, PartialEq, Eq)]
pub struct Transaction {
    /// Account that escrowed the funds on the origin chain.
    pub from_user: String,
    /// Address that receives the funds on the destination chain.
    pub to_user: String,
    /// Amount of tokens escrowed.
    pub amount: u128,
    /// Time of the deposit, in seconds.
    pub timestamp: u64,
    /// Identifier of the chain the deposit was made on.
    pub from_chain: String,
    /// Identifier of the chain the funds are released on.
    pub to_chain: String,
    /// Value of the deposit counter when the record was built.
    pub nonce: u128,
}

/// The mathematical content of a [`Transaction`].
pub struct TransactionView {
    pub from_user: Seq<char>,
    pub to_user: Seq<char>,
    pub amount: u128,
    pub timestamp: u64,
    pub from_chain: Seq<char>,
    pub to_chain: Seq<char>,
    pub nonce: u128,
}

impl View for Transaction {
    type V = TransactionView;

    open spec fn view(&self) -> TransactionView {
        TransactionView {
            from_user: self.from_user@,
            to_user: self.to_user@,
            amount: self.amount,
            timestamp: self.timestamp,
            from_chain: self.from_chain@,
            to_chain: self.to_chain@,
            nonce: self.nonce,
        }
    }
}

impl Clone for Transaction {
    fn clone(&self) -> (copy: Self)
        ensures
            copy@ == self@,
    {
        Transaction {
            from_user: self.from_user.clone(),
            to_user: self.to_user.clone(),
            amount: self.amount,
            timestamp: self.timestamp,
            from_chain: self.from_chain.clone(),
            to_chain: self.to_chain.clone(),
            nonce: self.nonce,
        }
    }
}

/// The contents of a list of records, in order.
pub open spec fn records_view(records: Seq<Transaction>) -> Seq<TransactionView> {
    records.map_values(|record: Transaction| record@)
}

/// Copies a list of records.
pub fn clone_records(records: &Vec<Transaction>) -> (copy: Vec<Transaction>)
    ensures
        records_view(copy@) == records_view(records@),
{
    let mut copy: Vec<Transaction> = Vec::new();
    let mut i: usize = 0;
    while i < records.len()
        invariant
            i <= records.len(),
            copy.len() == i,
            forall|j: int| 0 <= j < i ==> copy[j]@ == records[j]@,
        decreases records.len() - i,
    {
        copy.push(records[i].clone());
        i += 1;
    }
    assert(records_view(copy@) =~= records_view(records@));
    copy
}

} // verus!
