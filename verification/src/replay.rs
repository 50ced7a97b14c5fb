use crate::keys::clone_keys;
use crate::keys::distinct;
use crate::keys::find_key;
use crate::keys::lemma_push_distinct;
use crate::keys::lemma_swap_remove_distinct;
use crate::keys::texts;
use vstd::prelude::*;

verus! {

/// The hashes of the records that have been released.
pub struct ReplaySet {
    hashes: Vec<String>,
}

impl View for ReplaySet {
    type V = Set<Seq<char>>;

    /// The marked hashes.
    closed spec fn view(&self) -> Set<Seq<char>> {
        texts(self.hashes@).to_set()
    }
}

impl ReplaySet {
    /// The representation is consistent: no hash is held twice.
    pub closed spec fn wf(&self) -> bool {
        texts(self.hashes@).no_duplicates()
    }

    /// A set without marks.
    pub fn new() -> (set: Self)
        ensures
            set.wf(),
            set@ == Set::<Seq<char>>::empty(),
    {
        let set = ReplaySet { hashes: Vec::new() };
        assert(set@ =~= Set::<Seq<char>>::empty());
        set
    }

    /// The set that marks the given hashes. `None` if a hash occurs twice.
    pub fn from_vec(hashes: Vec<String>) -> (set: Option<ReplaySet>)
        ensures
            set is Some <==> texts(hashes@).no_duplicates(),
            set is Some ==> set->Some_0.wf() && set->Some_0@ == texts(hashes@).to_set(),
    {
        if distinct(&hashes) {
            Some(ReplaySet { hashes })
        } else {
            None
        }
    }

    /// Whether the hash is marked.
    pub fn contains(&self, hash: &String) -> (marked: bool)
        ensures
            marked == self@.contains(hash@),
    {
        find_key(&self.hashes, hash).is_some()
    }

    /// Marks a hash. Says whether it was unmarked before.
    pub fn insert(&mut self, hash: &String) -> (added: bool)
        requires
            old(self).wf(),
        ensures
            final(self).wf(),
            added == !old(self)@.contains(hash@),
            final(self)@ == old(self)@.insert(hash@),
    {
        if find_key(&self.hashes, hash).is_some() {
            assert(self@.insert(hash@) =~= self@);
            return false;
        }
        proof {
            lemma_push_distinct(texts(self.hashes@), hash@);
            assert(texts(self.hashes@.push(*hash)) =~= texts(self.hashes@).push(hash@));
            assert(texts(self.hashes@).push(hash@).to_set() =~= self@.insert(hash@));
        }
        self.hashes.push(hash.clone());
        true
    }

    /// Takes the mark off a hash. Says whether it was marked before.
    pub fn remove(&mut self, hash: &String) -> (removed: bool)
        requires
            old(self).wf(),
        ensures
            final(self).wf(),
            removed == old(self)@.contains(hash@),
            final(self)@ == old(self)@.remove(hash@),
    {
        match find_key(&self.hashes, hash) {
            None => {
                assert(self@.remove(hash@) =~= self@);
                false
            },
            Some(i) => {
                proof {
                    let list = texts(self.hashes@);
                    lemma_swap_remove_distinct(list, i as int);
                    assert(texts(self.hashes@.update(i as int, self.hashes@.last()).drop_last())
                        =~= list.update(i as int, list.last()).drop_last());
                    assert(list.update(i as int, list.last()).drop_last().to_set() =~= self@.remove(
                        hash@,
                    ));
                }
                self.hashes.swap_remove(i);
                true
            },
        }
    }

    /// The marked hashes, each once.
    pub fn to_vec(&self) -> (hashes: Vec<String>)
        ensures
            texts(hashes@).to_set() == self@,
            self.wf() ==> texts(hashes@).no_duplicates(),
    {
        clone_keys(&self.hashes)
    }
}

} // verus!
