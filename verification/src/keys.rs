use vstd::prelude::*;

verus! {

/// The texts of a list of strings, in order.
pub open spec fn texts(keys: Seq<String>) -> Seq<Seq<char>> {
    keys.map_values(|key: String| key@)
}

/// The position of a string with the text of `key`, if the list holds one.
pub fn find_key(keys: &Vec<String>, key: &String) -> (found: Option<usize>)
    ensures
        match found {
            Some(i) => i < keys.len() && texts(keys@)[i as int] == key@,
            None => !texts(keys@).contains(key@),
        },
{
    let mut i: usize = 0;
    while i < keys.len()
        invariant
            i <= keys.len(),
            forall|j: int| 0 <= j < i ==> texts(keys@)[j] != key@,
        decreases keys.len() - i,
    {
        if keys[i] == *key {
            return Some(i);
        }
        i += 1;
    }
    None
}

/// Copies a list of strings.
pub fn clone_keys(keys: &Vec<String>) -> (copy: Vec<String>)
    ensures
        texts(copy@) == texts(keys@),
{
    let mut copy: Vec<String> = Vec::new();
    let mut i: usize = 0;
    while i < keys.len()
        invariant
            i <= keys.len(),
            copy.len() == i,
            forall|j: int| 0 <= j < i ==> copy[j]@ == keys[j]@,
        decreases keys.len() - i,
    {
        copy.push(keys[i].clone());
        i += 1;
    }
    assert(texts(copy@) =~= texts(keys@));
    copy
}

/// In a list without duplicates, an element's position is the one at which it
/// is found.
pub proof fn lemma_index_of_unique(list: Seq<Seq<char>>, i: int)
    requires
        list.no_duplicates(),
        0 <= i < list.len(),
    ensures
        list.index_of(list[i]) == i,
        list.contains(list[i]),
{
}

/// Appending a new element keeps a list free of duplicates.
pub proof fn lemma_push_distinct(list: Seq<Seq<char>>, key: Seq<char>)
    requires
        list.no_duplicates(),
        !list.contains(key),
    ensures
        list.push(key).no_duplicates(),
        forall|other: Seq<char>| #[trigger]
            list.push(key).contains(other) <==> other == key || list.contains(other),
{
    let pushed = list.push(key);
    assert forall|other: Seq<char>| #[trigger]
        pushed.contains(other) <==> other == key || list.contains(other) by {
        if pushed.contains(other) {
            let i = choose|i: int| 0 <= i < pushed.len() && pushed[i] == other;
            if i < list.len() {
                assert(list[i] == other);
            }
        }
        if list.contains(other) {
            let i = choose|i: int| 0 <= i < list.len() && list[i] == other;
            assert(pushed[i] == other);
        }
        if other == key {
            assert(pushed[list.len() as int] == other);
        }
    }
}

/// Moving the last element into position `i` and dropping the last position
/// removes exactly the element that was at `i`.
pub proof fn lemma_swap_remove_distinct(list: Seq<Seq<char>>, i: int)
    requires
        list.no_duplicates(),
        0 <= i < list.len(),
    ensures
        list.update(i, list.last()).drop_last().no_duplicates(),
        forall|other: Seq<char>| #[trigger]
            list.update(i, list.last()).drop_last().contains(other) <==> other != list[i]
                && list.contains(other),
{
    let after = list.update(i, list.last()).drop_last();
    let last = list.len() - 1;
    assert forall|other: Seq<char>| #[trigger]
        after.contains(other) <==> other != list[i] && list.contains(other) by {
        if after.contains(other) {
            let j = choose|j: int| 0 <= j < after.len() && after[j] == other;
            if j == i {
                assert(list[last] == other);
            } else {
                assert(list[j] == other);
            }
        }
        if other != list[i] && list.contains(other) {
            let j = choose|j: int| 0 <= j < list.len() && list[j] == other;
            if j == last {
                assert(after[i] == other);
            } else {
                assert(after[j] == other);
            }
        }
    }
}

/// The map that sends each key of a list to the value at the same position.
pub open spec fn keyed_map<V>(keys: Seq<Seq<char>>, values: Seq<V>) -> Map<Seq<char>, V> {
    Map::new(|key: Seq<char>| keys.contains(key), |key: Seq<char>| values[keys.index_of(key)])
}

/// Appending a new key with its value inserts the pair into the map.
pub proof fn lemma_keyed_push<V>(keys: Seq<Seq<char>>, values: Seq<V>, key: Seq<char>, value: V)
    requires
        keys.len() == values.len(),
        keys.no_duplicates(),
        !keys.contains(key),
    ensures
        keys.push(key).no_duplicates(),
        keyed_map(keys.push(key), values.push(value)) == keyed_map(keys, values).insert(key, value),
{
    lemma_push_distinct(keys, key);
    let pushed = keys.push(key);
    let after = keyed_map(pushed, values.push(value));
    let expected = keyed_map(keys, values).insert(key, value);
    assert forall|other: Seq<char>| #[trigger] after.dom().contains(other) implies after[other]
        == expected[other] by {
        let i = pushed.index_of(other);
        if other != key {
            let j = keys.index_of(other);
            assert(pushed[j] == other);
        }
    }
    assert(after =~= expected);
}

/// Replacing the value at one position rewrites that key's entry in the map.
pub proof fn lemma_keyed_update<V>(keys: Seq<Seq<char>>, values: Seq<V>, i: int, value: V)
    requires
        keys.len() == values.len(),
        keys.no_duplicates(),
        0 <= i < keys.len(),
    ensures
        keyed_map(keys, values.update(i, value)) == keyed_map(keys, values).insert(keys[i], value),
        keyed_map(keys, values).dom().contains(keys[i]),
        keyed_map(keys, values)[keys[i]] == values[i],
{
    lemma_index_of_unique(keys, i);
    assert(keyed_map(keys, values.update(i, value)) =~= keyed_map(keys, values).insert(
        keys[i],
        value,
    ));
}

/// Moving the last pair into position `i` and dropping the last position
/// removes the key that was at `i` from the map.
pub proof fn lemma_keyed_swap_remove<V>(keys: Seq<Seq<char>>, values: Seq<V>, i: int)
    requires
        keys.len() == values.len(),
        keys.no_duplicates(),
        0 <= i < keys.len(),
    ensures
        keys.update(i, keys.last()).drop_last().no_duplicates(),
        keyed_map(
            keys.update(i, keys.last()).drop_last(),
            values.update(i, values.last()).drop_last(),
        ) == keyed_map(keys, values).remove(keys[i]),
{
    lemma_swap_remove_distinct(keys, i);
    let keys_after = keys.update(i, keys.last()).drop_last();
    let values_after = values.update(i, values.last()).drop_last();
    let after = keyed_map(keys_after, values_after);
    let expected = keyed_map(keys, values).remove(keys[i]);
    let last = keys.len() - 1;
    assert forall|other: Seq<char>| #[trigger] after.dom().contains(other) implies after[other]
        == expected[other] by {
        let j = keys_after.index_of(other);
        let k = keys.index_of(other);
        if j == i {
            assert(keys[last] == other);
        } else {
            assert(keys[j] == other);
        }
    }
    assert(after =~= expected);
}

/// Whether the first `end` strings of a list have texts other than `key`.
fn absent_before(keys: &Vec<String>, end: usize, key: &String) -> (absent: bool)
    requires
        end <= keys.len(),
    ensures
        absent == !texts(keys@).take(end as int).contains(key@),
{
    let mut i: usize = 0;
    while i < end
        invariant
            i <= end <= keys.len(),
            forall|j: int| 0 <= j < i ==> texts(keys@)[j] != key@,
        decreases end - i,
    {
        if keys[i] == *key {
            assert(texts(keys@).take(end as int)[i as int] == key@);
            return false;
        }
        i += 1;
    }
    true
}

/// Whether no text occurs twice in a list of strings.
pub fn distinct(keys: &Vec<String>) -> (distinct: bool)
    ensures
        distinct == texts(keys@).no_duplicates(),
{
    let mut i: usize = 0;
    while i < keys.len()
        invariant
            i <= keys.len(),
            texts(keys@).take(i as int).no_duplicates(),
        decreases keys.len() - i,
    {
        if !absent_before(keys, i, &keys[i]) {
            proof {
                let list = texts(keys@);
                let j = list.take(i as int).index_of(list[i as int]);
                assert(list[j] == list[i as int] && j != i);
            }
            return false;
        }
        proof {
            let list = texts(keys@);
            assert(list.take(i + 1) =~= list.take(i as int).push(list[i as int]));
            lemma_push_distinct(list.take(i as int), list[i as int]);
        }
        i += 1;
    }
    assert(texts(keys@).take(keys.len() as int) =~= texts(keys@));
    true
}

} // verus!
