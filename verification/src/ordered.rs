//! Insertion-ordered maps keyed by crate identifier.

use crate::settings::{CrateSettings, CrateSettingsView};
use cairo_lang_utils::ordered_hash_map::OrderedHashMap;
use vstd::prelude::*;

verus! {

/// `cairo_lang_utils::ordered_hash_map::OrderedHashMap`, a hash map that
/// keeps its entries in the order in which their keys were first inserted.
/// What a map holds is known only through `root_entries` and
/// `override_entries`.
#[verifier::external_type_specification]
#[verifier::external_body]
#[verifier::reject_recursive_types(Key)]
#[verifier::reject_recursive_types(Value)]
#[verifier::reject_recursive_types(BH)]
pub struct ExOrderedHashMap<Key, Value, BH>(OrderedHashMap<Key, Value, BH>);

/// Position of the first entry of `entries` with key `key`, or the length of
/// `entries` where no entry has that key.
pub open spec fn key_position<V>(entries: Seq<(Seq<char>, V)>, key: Seq<char>) -> int
    decreases entries.len(),
{
    if entries.len() == 0 {
        0
    } else if entries[0].0 == key {
        0
    } else {
        1 + key_position(entries.drop_first(), key)
    }
}

/// The entries after `key` was given `value`: an entry that already has the
/// key keeps its place and takes the value; otherwise a new entry comes last.
pub open spec fn ordered_insert<V>(entries: Seq<(Seq<char>, V)>, key: Seq<char>, value: V) -> Seq<
    (Seq<char>, V),
> {
    let at = key_position(entries, key);
    if at < entries.len() {
        entries.update(at, (key, value))
    } else {
        entries.push((key, value))
    }
}

/// The keys of the entries, in the entries' order.
pub open spec fn entry_keys<V>(entries: Seq<(Seq<char>, V)>) -> Seq<Seq<char>> {
    entries.map_values(|entry: (Seq<char>, V)| entry.0)
}

/// `key_position` is the position of the first entry with the key, and the
/// length where there is none.
pub proof fn lemma_key_position<V>(entries: Seq<(Seq<char>, V)>, key: Seq<char>)
    ensures
        0 <= key_position(entries, key) <= entries.len(),
        key_position(entries, key) < entries.len() ==> entries[key_position(entries, key)].0
            == key,
        forall|i: int| 0 <= i < key_position(entries, key) ==> (#[trigger] entries[i]).0 != key,
    decreases entries.len(),
{
    if entries.len() > 0 && entries[0].0 != key {
        let rest = entries.drop_first();
        lemma_key_position(rest, key);
        assert forall|i: int| 0 <= i < key_position(entries, key) implies (#[trigger] entries[i]).0
            != key by {
            if i > 0 {
                assert(entries[i] == rest[i - 1]);
            }
        }
    }
}

/// Giving a key a value leaves the keys as they are where the key is among
/// them, and adds the key at the end where it is not.
pub proof fn lemma_ordered_insert_keys<V>(entries: Seq<(Seq<char>, V)>, key: Seq<char>, value: V)
    ensures
        entry_keys(ordered_insert(entries, key, value)) == if entry_keys(entries).contains(key) {
            entry_keys(entries)
        } else {
            entry_keys(entries).push(key)
        },
{
    lemma_key_position(entries, key);
    let at = key_position(entries, key);
    let keys = entry_keys(entries);
    if at < entries.len() {
        assert(keys[at] == key);
        assert(entry_keys(entries.update(at, (key, value))) =~= keys);
    } else {
        assert forall|i: int| 0 <= i < keys.len() implies keys[i] != key by {
            assert(entries[i].0 != key);
        }
        assert(entry_keys(entries.push((key, value))) =~= keys.push(key));
    }
}

/// After a key was given a value, each entry is the one for that key and
/// value, or an entry that was there before, in its place.
pub proof fn lemma_ordered_insert_entry<V>(
    entries: Seq<(Seq<char>, V)>,
    key: Seq<char>,
    value: V,
    i: int,
)
    requires
        0 <= i < ordered_insert(entries, key, value).len(),
    ensures
        ordered_insert(entries, key, value)[i] == (key, value) || (i < entries.len()
            && ordered_insert(entries, key, value)[i] == entries[i]),
{
    lemma_key_position(entries, key);
}

/// The entries of a map of crate roots, in the map's order: crate identifier
/// and source root.
pub uninterp spec fn root_entries(map: OrderedHashMap<String, String>) -> Seq<(Seq<char>, Seq<char>)>;

/// An empty map of crate roots, made by `OrderedHashMap::default`.
#[verifier::external_body]
pub(crate) fn new_root_map() -> (map: OrderedHashMap<String, String>)
    ensures
        root_entries(map) == Seq::<(Seq<char>, Seq<char>)>::empty(),
{
    OrderedHashMap::default()
}

/// `OrderedHashMap::insert` on a map of crate roots: a key that the map holds
/// keeps its place and gets the new root, a new key comes last.
#[verifier::external_body]
pub(crate) fn insert_root(map: &mut OrderedHashMap<String, String>, key: String, root: String)
    ensures
        root_entries(*final(map)) == ordered_insert(root_entries(*old(map)), key@, root@),
{
    map.insert(key, root);
}

/// The entries of a map of per-crate settings, in the map's order: crate
/// identifier and settings.
pub uninterp spec fn override_entries(map: OrderedHashMap<String, CrateSettings>) -> Seq<
    (Seq<char>, CrateSettingsView),
>;

/// An empty map of per-crate settings, made by `OrderedHashMap::default`.
#[verifier::external_body]
pub(crate) fn new_override_map() -> (map: OrderedHashMap<String, CrateSettings>)
    ensures
        override_entries(map) == Seq::<(Seq<char>, CrateSettingsView)>::empty(),
{
    OrderedHashMap::default()
}

/// `OrderedHashMap::insert` on a map of per-crate settings: a key that the map
/// holds keeps its place and gets the new settings, a new key comes last.
#[verifier::external_body]
pub(crate) fn insert_override(
    map: &mut OrderedHashMap<String, CrateSettings>,
    key: String,
    settings: CrateSettings,
)
    ensures
        override_entries(*final(map)) == ordered_insert(
            override_entries(*old(map)),
            key@,
            settings@,
        ),
{
    map.insert(key, settings);
}

} // verus!
