//! The sparse environment overrides of a command: a list of entries with
//! distinct keys, seen as a map from variable name to `Some(value)` (set the
//! variable) or `None` (remove it).

use vstd::prelude::*;

verus! {

/// One override: a variable name, and the value it is forced to, or `None`
/// where it is forced out of the environment.
pub type EnvEntry = (String, Option<Vec<u8>>);

/// The model of an override's value.
pub open spec fn value_view(value: Option<Vec<u8>>) -> Option<Seq<u8>> {
    match value {
        Some(v) => Some(v@),
        None => None,
    }
}

/// No two entries name the same variable.
pub open spec fn keys_unique(entries: Seq<EnvEntry>) -> bool {
    forall|i: int, j: int|
        0 <= i < j < entries.len() ==> #[trigger] entries[i].0@ != #[trigger] entries[j].0@
}

/// Some entry names `key`.
pub open spec fn has_key(entries: Seq<EnvEntry>, key: Seq<char>) -> bool {
    exists|i: int| 0 <= i < entries.len() && #[trigger] entries[i].0@ == key
}

/// The entries as a map from variable name to override.
pub open spec fn overrides_map(entries: Seq<EnvEntry>) -> Map<Seq<char>, Option<Seq<u8>>> {
    Map::new(
        |key: Seq<char>| has_key(entries, key),
        |key: Seq<char>|
            value_view(entries[choose|i: int| 0 <= i < entries.len() && #[trigger] entries[i].0@ == key].1),
    )
}

/// In a list with distinct keys, the map holds at an entry's key that entry's value.
pub proof fn lemma_map_at_entry(entries: Seq<EnvEntry>, i: int)
    requires
        keys_unique(entries),
        0 <= i < entries.len(),
    ensures
        overrides_map(entries).contains_key(entries[i].0@),
        overrides_map(entries)[entries[i].0@] == value_view(entries[i].1),
{
    let key = entries[i].0@;
    assert(has_key(entries, key));
    let j = choose|j: int| 0 <= j < entries.len() && #[trigger] entries[j].0@ == key;
    if i < j {
        assert(entries[i].0@ != entries[j].0@);
    } else if j < i {
        assert(entries[j].0@ != entries[i].0@);
    }
}

/// Copies a value, byte for byte.
pub(crate) fn copy_value(value: &Option<Vec<u8>>) -> (r: Option<Vec<u8>>)
    ensures
        value_view(r) == value_view(*value),
{
    match value {
        Some(v) => Some(vstd::slice::slice_to_vec(v.as_slice())),
        None => None,
    }
}

/// Where `key` stands in `entries`, if anywhere.
pub(crate) fn find_key(entries: &Vec<EnvEntry>, key: &str) -> (r: Option<usize>)
    ensures
        match r {
            Some(i) => i < entries@.len() && entries@[i as int].0@ == key@,
            None => !has_key(entries@, key@),
        },
{
    let name = String::from_str(key);
    let mut i: usize = 0;
    while i < entries.len()
        invariant
            i <= entries@.len(),
            name@ == key@,
            forall|j: int| 0 <= j < i ==> #[trigger] entries@[j].0@ != key@,
        decreases entries.len() - i,
    {
        if entries[i].0 == name {
            return Some(i);
        }
        i += 1;
    }
    None
}

/// Records `value` as the override of `key`, replacing an earlier one.
pub(crate) fn set_override(entries: &mut Vec<EnvEntry>, key: &str, value: Option<Vec<u8>>)
    requires
        keys_unique(old(entries)@),
    ensures
        keys_unique(final(entries)@),
        overrides_map(final(entries)@) == overrides_map(old(entries)@).insert(key@, value_view(value)),
{
    let ghost before = entries@;
    let ghost new_value = value_view(value);
    match find_key(entries, key) {
        Some(i) => {
            let name = entries[i].0.clone();
            entries.remove(i);
            entries.insert(i, (name, value));
            proof {
                assert(entries@ =~= before.update(i as int, entries@[i as int]));
                assert forall|a: int, b: int|
                    0 <= a < b < entries@.len() implies #[trigger] entries@[a].0@ != #[trigger] entries@[b].0@ by {
                    assert(before[a].0@ != before[b].0@);
                }
                assert forall|k: Seq<char>| has_key(entries@, k) == has_key(before, k) by {
                    if has_key(before, k) {
                        let j = choose|j: int| 0 <= j < before.len() && #[trigger] before[j].0@ == k;
                        assert(entries@[j].0@ == k);
                    }
                    if has_key(entries@, k) {
                        let j = choose|j: int| 0 <= j < entries@.len() && #[trigger] entries@[j].0@ == k;
                        assert(before[j].0@ == k);
                    }
                }
                assert forall|k: Seq<char>| #[trigger] has_key(entries@, k) && k != key@ implies
                    overrides_map(entries@)[k] == overrides_map(before)[k] by {
                    let j = choose|j: int| 0 <= j < entries@.len() && #[trigger] entries@[j].0@ == k;
                    lemma_map_at_entry(entries@, j);
                    lemma_map_at_entry(before, j);
                }
                lemma_map_at_entry(entries@, i as int);
                assert(overrides_map(entries@) =~= overrides_map(before).insert(key@, new_value));
            }
        },
        None => {
            let name = String::from_str(key);
            entries.push((name, value));
            proof {
                let n = before.len() as int;
                assert(entries@[n].0@ == key@);
                assert forall|a: int, b: int|
                    0 <= a < b < entries@.len() implies #[trigger] entries@[a].0@ != #[trigger] entries@[b].0@ by {
                    if b < n {
                        assert(before[a].0@ != before[b].0@);
                    } else {
                        assert(!has_key(before, key@));
                        assert(before[a].0@ != key@);
                    }
                }
                assert forall|k: Seq<char>| #[trigger] has_key(entries@, k) == (has_key(before, k) || k == key@) by {
                    if has_key(before, k) {
                        let j = choose|j: int| 0 <= j < before.len() && #[trigger] before[j].0@ == k;
                        assert(entries@[j].0@ == k);
                    }
                    if has_key(entries@, k) && k != key@ {
                        let j = choose|j: int| 0 <= j < entries@.len() && #[trigger] entries@[j].0@ == k;
                        assert(before[j].0@ == k);
                    }
                }
                assert forall|k: Seq<char>| #[trigger] has_key(before, k) && k != key@ implies
                    overrides_map(entries@)[k] == overrides_map(before)[k] by {
                    let j = choose|j: int| 0 <= j < before.len() && #[trigger] before[j].0@ == k;
                    assert(entries@[j] == before[j]);
                    lemma_map_at_entry(entries@, j);
                    lemma_map_at_entry(before, j);
                }
                lemma_map_at_entry(entries@, n);
                assert(overrides_map(entries@) =~= overrides_map(before).insert(key@, new_value));
            }
        },
    }
}

} // verus!
