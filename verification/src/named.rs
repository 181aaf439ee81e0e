//! Lists of named entries, looked up by name.
//!
//! Selectors, selections, properties and child-selector marks are all kept in
//! the order in which they were registered, each under its name. Where a name
//! occurs more than once the first entry is the one that is found.

use vstd::prelude::*;

verus! {

/// The names of the entries, in their order.
pub open spec fn names_of<V>(entries: Seq<(String, V)>) -> Seq<Seq<char>> {
    entries.map_values(|entry: (String, V)| entry.0@)
}

/// The entries with each name as a sequence of characters.
pub open spec fn keyed<V>(entries: Seq<(String, V)>) -> Seq<(Seq<char>, V)> {
    entries.map_values(|entry: (String, V)| (entry.0@, entry.1))
}

/// The names of entries that are already keyed by sequences of characters.
pub open spec fn keys<V>(entries: Seq<(Seq<char>, V)>) -> Seq<Seq<char>> {
    entries.map_values(|entry: (Seq<char>, V)| entry.0)
}

/// The entries with `value` under `name`: in the place of the first entry of
/// that name where there is one, at the end where there is none.
pub open spec fn upsert<V>(entries: Seq<(Seq<char>, V)>, name: Seq<char>, value: V) -> Seq<
    (Seq<char>, V),
> {
    match position(keys(entries), name) {
        Some(i) => entries.update(i, (name, value)),
        None => entries.push((name, value)),
    }
}

/// The entries with `f` applied to each value.
pub open spec fn with_values<V, W>(entries: Seq<(Seq<char>, V)>, f: spec_fn(V) -> W) -> Seq<
    (Seq<char>, W),
> {
    entries.map_values(|entry: (Seq<char>, V)| (entry.0, f(entry.1)))
}

/// Whether `i` is the first position in `names` that holds `key`.
pub open spec fn is_first_at(names: Seq<Seq<char>>, key: Seq<char>, i: int) -> bool {
    &&& 0 <= i < names.len()
    &&& names[i] == key
    &&& forall|j: int| 0 <= j < i ==> names[j] != key
}

/// The first position in `names` that holds `key`.
pub open spec fn position(names: Seq<Seq<char>>, key: Seq<char>) -> Option<int> {
    if exists|i: int| is_first_at(names, key, i) {
        Some(choose|i: int| is_first_at(names, key, i))
    } else {
        None
    }
}

/// Whether `key` is among `names`.
pub open spec fn has_name(names: Seq<Seq<char>>, key: Seq<char>) -> bool {
    position(names, key) is Some
}

/// A name has at most one first position.
pub proof fn lemma_first_is_unique(names: Seq<Seq<char>>, key: Seq<char>, i: int, j: int)
    requires
        is_first_at(names, key, i),
        is_first_at(names, key, j),
    ensures
        i == j,
{
    if i < j {
        assert(names[i] != key);
    } else if j < i {
        assert(names[j] != key);
    }
}

/// `position` finds the first position of a name that occurs.
pub proof fn lemma_position_found(names: Seq<Seq<char>>, key: Seq<char>, i: int)
    requires
        is_first_at(names, key, i),
    ensures
        position(names, key) == Some(i),
{
    let chosen = choose|k: int| is_first_at(names, key, k);
    lemma_first_is_unique(names, key, chosen, i);
}

/// What `position` finds is the first position of the name.
pub proof fn lemma_position_found_is_first(names: Seq<Seq<char>>, key: Seq<char>)
    requires
        position(names, key) is Some,
    ensures
        is_first_at(names, key, position(names, key)->0),
{
}

/// `position` finds nothing exactly where the name does not occur.
pub proof fn lemma_position_absent(names: Seq<Seq<char>>, key: Seq<char>)
    requires
        forall|j: int| 0 <= j < names.len() ==> names[j] != key,
    ensures
        position(names, key) is None,
{
    if exists|i: int| is_first_at(names, key, i) {
        let i = choose|i: int| is_first_at(names, key, i);
        assert(names[i] != key);
    }
}

/// A name that occurs anywhere in `names` has a first position.
pub proof fn lemma_occurs_has_position(names: Seq<Seq<char>>, key: Seq<char>, at: int)
    requires
        0 <= at < names.len(),
        names[at] == key,
    ensures
        position(names, key) is Some,
        position(names, key)->0 <= at,
    decreases at,
{
    if forall|j: int| 0 <= j < at ==> names[j] != key {
        assert(is_first_at(names, key, at));
        lemma_position_found(names, key, at);
    } else {
        let j = choose|j: int| 0 <= j < at && names[j] == key;
        lemma_occurs_has_position(names, key, j);
    }
}

/// The names of keyed entries are the names of the entries.
pub proof fn lemma_keys_of_keyed<V>(entries: Seq<(String, V)>)
    ensures
        keys(keyed(entries)) == names_of(entries),
{
    assert(keys(keyed(entries)) =~= names_of(entries));
}

/// Putting a value under a name that is there keeps the names; putting it
/// under a new name adds the name at the end.
pub proof fn lemma_upsert_keys<V>(entries: Seq<(Seq<char>, V)>, name: Seq<char>, value: V)
    ensures
        keys(upsert(entries, name, value)) == (if has_name(keys(entries), name) {
            keys(entries)
        } else {
            keys(entries).push(name)
        }),
        has_name(keys(upsert(entries, name, value)), name),
{
    let names = keys(entries);
    let after = upsert(entries, name, value);
    match position(names, name) {
        Some(i) => {
            assert(is_first_at(names, name, i));
            assert(keys(after) =~= names);
        },
        None => {
            assert(keys(after) =~= names.push(name));
            lemma_occurs_has_position(keys(after), name, names.len() as int);
        },
    }
}

/// Putting a value under a name and then mapping the values gives what
/// mapping the values and then putting the mapped value under the name gives.
pub proof fn lemma_upsert_with_values<V, W>(
    entries: Seq<(Seq<char>, V)>,
    name: Seq<char>,
    value: V,
    f: spec_fn(V) -> W,
)
    ensures
        with_values(upsert(entries, name, value), f) == upsert(
            with_values(entries, f),
            name,
            f(value),
        ),
{
    assert(keys(with_values(entries, f)) =~= keys(entries));
    assert(with_values(upsert(entries, name, value), f) =~= upsert(
        with_values(entries, f),
        name,
        f(value),
    ));
}

/// Putting a value under a name leaves no name twice where none stood twice.
pub proof fn lemma_upsert_keeps_names_distinct<V>(
    entries: Seq<(Seq<char>, V)>,
    name: Seq<char>,
    value: V,
)
    requires
        keys(entries).no_duplicates(),
    ensures
        keys(upsert(entries, name, value)).no_duplicates(),
{
    lemma_upsert_keys(entries, name, value);
    let names = keys(entries);
    if !has_name(names, name) {
        assert forall|j: int| 0 <= j < names.len() implies names[j] != name by {
            if names[j] == name {
                lemma_occurs_has_position(names, name, j);
            }
        }
    }
}

/// The position of the first entry named `key`.
pub fn find_name<V>(entries: &Vec<(String, V)>, key: &str) -> (r: Option<usize>)
    ensures
        match r {
            Some(i) => position(names_of(entries@), key@) == Some(i as int) && i < entries.len(),
            None => position(names_of(entries@), key@) is None,
        },
{
    let wanted = key.to_owned();
    let ghost names = names_of(entries@);
    let mut i: usize = 0;
    while i < entries.len()
        invariant
            i <= entries.len(),
            wanted@ == key@,
            names == names_of(entries@),
            forall|j: int| 0 <= j < i ==> names[j] != key@,
        decreases entries.len() - i,
    {
        if entries[i].0 == wanted {
            proof {
                assert(names[i as int] == key@);
                assert(is_first_at(names, key@, i as int));
                lemma_position_found(names, key@, i as int);
            }
            return Some(i);
        }
        assert(names[i as int] == entries@[i as int].0@);
        i = i + 1;
    }
    proof {
        lemma_position_absent(names, key@);
    }
    None
}

/// Puts `value` under `name`: in the place of the first entry of that name
/// where there is one, at the end where there is none.
pub fn put<V>(entries: &mut Vec<(String, V)>, name: &str, value: V)
    ensures
        keyed(final(entries)@) == upsert(keyed(old(entries)@), name@, value),
{
    proof {
        lemma_keys_of_keyed(entries@);
    }
    match find_name(entries, name) {
        Some(i) => {
            entries[i] = (name.to_owned(), value);
            assert(keyed(entries@) =~= upsert(keyed(old(entries)@), name@, value));
        },
        None => {
            entries.push((name.to_owned(), value));
            assert(keyed(entries@) =~= upsert(keyed(old(entries)@), name@, value));
        },
    }
}

} // verus!
