use crate::keys::clone_keys;
use crate::keys::distinct;
use crate::keys::find_key;
use crate::keys::lemma_index_of_unique;
use crate::keys::lemma_push_distinct;
use crate::keys::lemma_swap_remove_distinct;
use crate::keys::texts;
use vstd::prelude::*;

verus! {

/// A list after the removal of `key`: the last element takes the place of
/// `key`, and the list gets shorter by one.
pub open spec fn without(list: Seq<Seq<char>>, key: Seq<char>) -> Seq<Seq<char>> {
    list.update(list.index_of(key), list.last()).drop_last()
}

/// The counterpart chains that the bridge recognizes.
pub struct ChainRegistry {
    chains: Vec<String>,
}

impl View for ChainRegistry {
    type V = Seq<Seq<char>>;

    /// The registered chain identifiers, in listing order.
    closed spec fn view(&self) -> Seq<Seq<char>> {
        texts(self.chains@)
    }
}

impl ChainRegistry {
    /// The registry is valid: no chain is listed twice.
    pub open spec fn wf(&self) -> bool {
        self@.no_duplicates()
    }

    /// A registry without chains.
    pub fn new() -> (registry: Self)
        ensures
            registry.wf(),
            registry@ == Seq::<Seq<char>>::empty(),
    {
        let registry = ChainRegistry { chains: Vec::new() };
        assert(registry@ =~= Seq::<Seq<char>>::empty());
        registry
    }

    /// The registry that lists the given chains in the given order. `None`
    /// if a chain occurs twice.
    pub fn from_vec(chains: Vec<String>) -> (registry: Option<ChainRegistry>)
        ensures
            registry is Some <==> texts(chains@).no_duplicates(),
            registry is Some ==> registry->Some_0.wf() && registry->Some_0@ == texts(chains@),
    {
        if distinct(&chains) {
            Some(ChainRegistry { chains })
        } else {
            None
        }
    }

    /// Whether the chain is registered.
    pub fn contains(&self, chain: &String) -> (listed: bool)
        ensures
            listed == self@.contains(chain@),
    {
        find_key(&self.chains, chain).is_some()
    }

    /// Registers a chain at the end of the list, unless it is listed already.
    pub fn insert(&mut self, chain: &String) -> (added: bool)
        requires
            old(self).wf(),
        ensures
            final(self).wf(),
            added == !old(self)@.contains(chain@),
            final(self)@ == (if added {
                old(self)@.push(chain@)
            } else {
                old(self)@
            }),
    {
        if find_key(&self.chains, chain).is_some() {
            return false;
        }
        proof {
            lemma_push_distinct(self@, chain@);
            assert(texts(self.chains@.push(*chain)) =~= texts(self.chains@).push(chain@));
        }
        self.chains.push(chain.clone());
        true
    }

    /// Takes a chain off the list, if it is listed.
    pub fn remove(&mut self, chain: &String) -> (removed: bool)
        requires
            old(self).wf(),
        ensures
            final(self).wf(),
            removed == old(self)@.contains(chain@),
            final(self)@ == (if removed {
                without(old(self)@, chain@)
            } else {
                old(self)@
            }),
            !final(self)@.contains(chain@),
    {
        match find_key(&self.chains, chain) {
            None => false,
            Some(i) => {
                proof {
                    lemma_index_of_unique(self@, i as int);
                    lemma_swap_remove_distinct(self@, i as int);
                    assert(texts(self.chains@.update(i as int, self.chains@.last()).drop_last())
                        =~= texts(self.chains@).update(
                        i as int,
                        texts(self.chains@).last(),
                    ).drop_last());
                }
                self.chains.swap_remove(i);
                true
            },
        }
    }

    /// The registered chains, in listing order.
    pub fn to_vec(&self) -> (chains: Vec<String>)
        ensures
            texts(chains@) == self@,
    {
        clone_keys(&self.chains)
    }
}

} // verus!
