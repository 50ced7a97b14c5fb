use crate::keys::keyed_map;
use crate::keys::lemma_keyed_push;
use vstd::prelude::*;

verus! {

/// The sum of all balances of a finite credit map.
pub open spec fn credit_sum(credits: Map<Seq<char>, u128>) -> nat
    decreases credits.dom().len(),
    when credits.dom().finite()
{
    if credits.dom().len() == 0 {
        0
    } else {
        let account = credits.dom().choose();
        credits[account] as nat + credit_sum(credits.remove(account))
    }
}

/// Any one entry can be split off the sum.
pub proof fn lemma_sum_split(credits: Map<Seq<char>, u128>, account: Seq<char>)
    requires
        credits.dom().finite(),
        credits.dom().contains(account),
    ensures
        credit_sum(credits) == credits[account] as nat + credit_sum(credits.remove(account)),
    decreases credits.dom().len(),
{
    let chosen = credits.dom().choose();
    if chosen != account {
        let rest = credits.remove(chosen);
        lemma_sum_split(rest, account);
        lemma_sum_split(credits.remove(account), chosen);
        assert(rest.remove(account) =~= credits.remove(account).remove(chosen));
    }
}

/// Writing one entry changes the sum by the difference to what the entry held
/// before, or adds the new balance where there was none.
pub proof fn lemma_sum_insert(credits: Map<Seq<char>, u128>, account: Seq<char>, balance: u128)
    requires
        credits.dom().finite(),
    ensures
        credit_sum(credits.insert(account, balance)) == credit_sum(credits.remove(account))
            + balance as nat,
        credits.dom().contains(account) ==> credit_sum(credits) == credit_sum(
            credits.remove(account),
        ) + credits[account] as nat,
        !credits.dom().contains(account) ==> credit_sum(credits) == credit_sum(
            credits.remove(account),
        ),
{
    let updated = credits.insert(account, balance);
    lemma_sum_split(updated, account);
    assert(updated.remove(account) =~= credits.remove(account));
    if credits.dom().contains(account) {
        lemma_sum_split(credits, account);
    } else {
        assert(credits.remove(account) =~= credits);
    }
}

/// No balance exceeds the sum.
pub proof fn lemma_sum_bounds_entry(credits: Map<Seq<char>, u128>, account: Seq<char>)
    requires
        credits.dom().finite(),
        credits.dom().contains(account),
    ensures
        credits[account] as nat <= credit_sum(credits),
{
    lemma_sum_split(credits, account);
}

/// The sum of a list of balances.
pub open spec fn balances_sum(balances: Seq<u128>) -> nat
    decreases balances.len(),
{
    if balances.len() == 0 {
        0
    } else {
        balances_sum(balances.drop_last()) + balances.last() as nat
    }
}

/// The sum of the first balances of a list does not exceed the sum of all.
pub proof fn lemma_prefix_sum(balances: Seq<u128>, end: int)
    requires
        0 <= end <= balances.len(),
    ensures
        balances_sum(balances.take(end)) <= balances_sum(balances),
    decreases balances.len() - end,
{
    if end == balances.len() {
        assert(balances.take(end) =~= balances);
    } else {
        lemma_prefix_sum(balances, end + 1);
        assert(balances.take(end + 1).drop_last() =~= balances.take(end));
    }
}

/// The map of distinct accounts to their balances sums up to the sum of the
/// list of balances.
pub proof fn lemma_keyed_sum(accounts: Seq<Seq<char>>, balances: Seq<u128>)
    requires
        accounts.len() == balances.len(),
        accounts.no_duplicates(),
    ensures
        keyed_map(accounts, balances).dom().finite(),
        credit_sum(keyed_map(accounts, balances)) == balances_sum(balances),
    decreases accounts.len(),
{
    if accounts.len() == 0 {
        assert(keyed_map(accounts, balances) =~= Map::<Seq<char>, u128>::empty());
    } else {
        let before = accounts.drop_last();
        let sums = balances.drop_last();
        lemma_keyed_sum(before, sums);
        assert(before.push(accounts.last()) =~= accounts);
        assert(sums.push(balances.last()) =~= balances);
        if before.contains(accounts.last()) {
            let i = before.index_of(accounts.last());
            assert(accounts[i] == accounts[accounts.len() - 1]);
        }
        lemma_keyed_push(before, sums, accounts.last(), balances.last());
        lemma_sum_insert(keyed_map(before, sums), accounts.last(), balances.last());
    }
}

} // verus!
