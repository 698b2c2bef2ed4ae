//! Hash tables of the decoders: entities by identifier, and surrogate
//! identifiers by legacy key.
//!
//! The tables are `rustc_hash` maps. What a table holds is stated as a
//! mathematical map; the functions of this module say how each operation
//! changes it.

use vstd::prelude::*;
use rustc_hash::{FxHashMap, FxHashSet};

verus! {

/// The hasher factory of the `rustc_hash` tables.
#[verifier::external_type_specification]
#[verifier::external_body]
pub struct ExFxBuildHasher(rustc_hash::FxBuildHasher);

/// The legacy keys of a text-keyed table, each with its surrogate identifier.
pub uninterp spec fn legacy_ids(table: FxHashMap<String, i32>) -> Map<Seq<char>, i32>;

/// The legacy keys of a table keyed by a pair of numbers, each with its
/// surrogate identifier.
pub uninterp spec fn pair_ids(table: FxHashMap<(i32, i32), i32>) -> Map<(i32, i32), i32>;

/// The journeys of a set: number and administration of each.
pub uninterp spec fn journey_keys(set: FxHashSet<(i32, String)>) -> Set<(i32, Seq<char>)>;

/// `FxHashMap::default` for a text-keyed table: a table without entries.
#[verifier::external_body]
fn ids_new() -> (table: FxHashMap<String, i32>)
    ensures
        legacy_ids(table) == (Map::<Seq<char>, i32>::empty()),
{
    FxHashMap::default()
}

/// `HashMap::insert` on a text-keyed table: the key maps to the new value
/// afterwards, all other keys are as before, and the value that the key had
/// before, if any, is returned.
#[verifier::external_body]
fn ids_insert(table: &mut FxHashMap<String, i32>, key: String, id: i32) -> (previous: Option<i32>)
    ensures
        legacy_ids(*final(table)) == legacy_ids(*old(table)).insert(key@, id),
        previous == legacy_ids(*old(table)).get(key@),
{
    table.insert(key, id)
}

/// `HashMap::get` on a text-keyed table: the value of the key, if it has one.
#[verifier::external_body]
fn ids_get(table: &FxHashMap<String, i32>, key: &str) -> (id: Option<i32>)
    ensures
        id == legacy_ids(*table).get(key@),
{
    match table.get(key) {
        Some(id) => Some(*id),
        None => None,
    }
}

/// `FxHashMap::default` for a pair-keyed table: a table without entries.
#[verifier::external_body]
fn pairs_new() -> (table: FxHashMap<(i32, i32), i32>)
    ensures
        pair_ids(table) == (Map::<(i32, i32), i32>::empty()),
{
    FxHashMap::default()
}

/// `HashMap::insert` on a pair-keyed table: the key maps to the new value
/// afterwards, all other keys are as before, and the value that the key had
/// before, if any, is returned.
#[verifier::external_body]
fn pairs_insert(table: &mut FxHashMap<(i32, i32), i32>, key: (i32, i32), id: i32) -> (previous:
    Option<i32>)
    ensures
        pair_ids(*final(table)) == pair_ids(*old(table)).insert(key, id),
        previous == pair_ids(*old(table)).get(key),
{
    table.insert(key, id)
}

/// `HashMap::get` on a pair-keyed table: the value of the key, if it has one.
#[verifier::external_body]
fn pairs_get(table: &FxHashMap<(i32, i32), i32>, key: (i32, i32)) -> (id: Option<i32>)
    ensures
        id == pair_ids(*table).get(key),
{
    match table.get(&key) {
        Some(id) => Some(*id),
        None => None,
    }
}

/// `HashSet::contains` on a set of journeys: whether the journey is in the set.
#[verifier::external_body]
fn journeys_contains(set: &FxHashSet<(i32, String)>, id: i32, administration: &String) -> (found:
    bool)
    ensures
        found == journey_keys(*set).contains((id, administration@)),
{
    set.contains(&(id, administration.clone()))
}

/// `FxHashMap::default` for a table of entities: a table without entries.
#[verifier::external_body]
fn entities_new<T>() -> (table: FxHashMap<i32, T>)
    ensures
        table@ == (Map::<i32, T>::empty()),
{
    FxHashMap::default()
}

/// `HashMap::insert` on a table of entities: the identifier maps to the new
/// entity afterwards, all others are as before, and the entity that the
/// identifier had before, if any, is returned.
#[verifier::external_body]
fn entities_insert<T>(table: &mut FxHashMap<i32, T>, id: i32, entity: T) -> (previous: Option<T>)
    ensures
        final(table)@ == old(table)@.insert(id, entity),
        previous == old(table)@.get(id),
{
    table.insert(id, entity)
}

/// `HashMap::remove` on a table of entities: the identifier has no entity
/// afterwards, all others are as before, and the entity that the identifier
/// had before, if any, is returned.
#[verifier::external_body]
fn entities_remove<T>(table: &mut FxHashMap<i32, T>, id: i32) -> (removed: Option<T>)
    ensures
        final(table)@ == old(table)@.remove(id),
        removed == old(table)@.get(id),
{
    table.remove(&id)
}

/// `HashMap::get` on a table of entities: the entity of the identifier, if it has one.
#[verifier::external_body]
fn entities_get<T>(table: &FxHashMap<i32, T>, id: i32) -> (entity: Option<&T>)
    ensures
        match entity {
            Some(entity) => table@.get(id) == Some(*entity),
            None => table@.get(id) is None,
        },
{
    table.get(&id)
}

/// A table of legacy keys without entries.
pub fn new_legacy_table() -> (table: FxHashMap<String, i32>)
    ensures
        legacy_ids(table) == (Map::<Seq<char>, i32>::empty()),
{
    ids_new()
}

/// Registers a legacy key with a surrogate identifier. A key that is already
/// registered gets the new identifier; the one it had is returned.
pub fn register_legacy_key(table: &mut FxHashMap<String, i32>, key: String, id: i32) -> (previous:
    Option<i32>)
    ensures
        legacy_ids(*final(table)) == legacy_ids(*old(table)).insert(key@, id),
        previous == legacy_ids(*old(table)).get(key@),
{
    ids_insert(table, key, id)
}

/// The surrogate identifier of a legacy key, or `None` for a key that was
/// never registered.
pub fn resolve_legacy_key(table: &FxHashMap<String, i32>, key: &str) -> (id: Option<i32>)
    ensures
        id == legacy_ids(*table).get(key@),
{
    ids_get(table, key)
}

/// A table of pair keys without entries.
pub fn new_pair_table() -> (table: FxHashMap<(i32, i32), i32>)
    ensures
        pair_ids(table) == (Map::<(i32, i32), i32>::empty()),
{
    pairs_new()
}

/// Registers a pair key with a surrogate identifier. A key that is already
/// registered gets the new identifier; the one it had is returned.
pub fn register_pair_key(table: &mut FxHashMap<(i32, i32), i32>, key: (i32, i32), id: i32) -> (previous:
    Option<i32>)
    ensures
        pair_ids(*final(table)) == pair_ids(*old(table)).insert(key, id),
        previous == pair_ids(*old(table)).get(key),
{
    pairs_insert(table, key, id)
}

/// The surrogate identifier of a pair key, or `None` for a key that was never
/// registered.
pub fn resolve_pair_key(table: &FxHashMap<(i32, i32), i32>, key: (i32, i32)) -> (id: Option<i32>)
    ensures
        id == pair_ids(*table).get(key),
{
    pairs_get(table, key)
}

/// Whether a journey, known by its number and administration, is in the set.
pub fn is_known_journey(set: &FxHashSet<(i32, String)>, id: i32, administration: &String) -> (found:
    bool)
    ensures
        found == journey_keys(*set).contains((id, administration@)),
{
    journeys_contains(set, id, administration)
}

/// A table of entities without entries.
pub fn new_table<T>() -> (table: FxHashMap<i32, T>)
    ensures
        table@ == (Map::<i32, T>::empty()),
{
    entities_new()
}

/// Stores an entity under its identifier and returns the one it replaces.
pub fn store<T>(table: &mut FxHashMap<i32, T>, id: i32, entity: T) -> (previous: Option<T>)
    ensures
        final(table)@ == old(table)@.insert(id, entity),
        previous == old(table)@.get(id),
{
    entities_insert(table, id, entity)
}

/// Takes the entity of an identifier out of the table.
pub fn take<T>(table: &mut FxHashMap<i32, T>, id: i32) -> (removed: Option<T>)
    ensures
        final(table)@ == old(table)@.remove(id),
        removed == old(table)@.get(id),
{
    entities_remove(table, id)
}

/// The entity of an identifier.
pub fn lookup<T>(table: &FxHashMap<i32, T>, id: i32) -> (entity: Option<&T>)
    ensures
        match entity {
            Some(entity) => table@.get(id) == Some(*entity),
            None => table@.get(id) is None,
        },
{
    entities_get(table, id)
}

/// The last registration decides: after a key was registered twice, it
/// resolves to the identifier of the second registration.
pub proof fn lemma_last_registration_wins(
    table: Map<Seq<char>, i32>,
    key: Seq<char>,
    first: i32,
    second: i32,
)
    ensures
        table.insert(key, first).insert(key, second).get(key) == Some(second),
        table.insert(key, first).insert(key, second) == table.insert(key, second),
        table.insert(key, first).get(key) == Some(first),
{
    assert(table.insert(key, first).insert(key, second) =~= table.insert(key, second));
}

/// What each entity of a table holds.
pub open spec fn entity_views<T: View>(table: Map<i32, T>) -> Map<i32, T::V> {
    table.map_values(|entity: T| entity@)
}

/// Storing an entity stores what it holds.
pub proof fn lemma_views_after_insert<T: View>(table: Map<i32, T>, id: i32, entity: T)
    ensures
        entity_views(table.insert(id, entity)) == entity_views(table).insert(id, entity@),
        entity_views(table.remove(id).insert(id, entity)) == entity_views(table).insert(
            id,
            entity@,
        ),
{
    assert(entity_views(table.insert(id, entity)) =~= entity_views(table).insert(id, entity@));
    assert(entity_views(table.remove(id).insert(id, entity)) =~= entity_views(table).insert(
        id,
        entity@,
    ));
}

/// What a table holds says what each of its entities holds.
pub proof fn lemma_views_of_entry<T: View>(table: Map<i32, T>, id: i32)
    ensures
        entity_views(table).contains_key(id) == table.contains_key(id),
        table.contains_key(id) ==> entity_views(table)[id] == table[id]@,
        entity_views(table).get(id) == match table.get(id) {
            Some(entity) => Some(entity@),
            None => None,
        },
{
}

/// An empty table holds nothing.
pub proof fn lemma_views_of_empty<T: View>()
    ensures
        entity_views(Map::<i32, T>::empty()) == Map::<i32, T::V>::empty(),
{
    assert(entity_views(Map::<i32, T>::empty()) =~= Map::<i32, T::V>::empty());
}

} // verus!
