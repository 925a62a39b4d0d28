//! The tables of a node's signals, kept in the hash map that the engine's
//! utilities provide.
//!
//! The map itself is not verified. What this module claims of it is stated
//! over two names, [`handle_entries`] and [`adaptor_entries`], which stand
//! for what a table holds; everything built on the tables is proved from
//! these claims alone.

use vstd::prelude::*;
use bevy::utils::hashbrown::HashMap;
use crate::signals::pool::Signal;
use crate::signals::channel::SignalMapper;

verus! {

/// Handles by signal key.
#[verifier::external_body]
pub struct HandleTable {
    map: HashMap<u64, Signal>,
}

/// Adaptors by the key of the signal they provide: the key of the signal they
/// read, and the mapper.
#[verifier::external_body]
pub struct AdaptorTable {
    map: HashMap<u64, (u64, SignalMapper)>,
}

/// What a table of handles holds: the value of every key that has one.
pub uninterp spec fn handle_entries(table: HandleTable) -> Map<u64, Signal>;

/// What a table of adaptors holds: the value of every key that has one.
pub uninterp spec fn adaptor_entries(table: AdaptorTable) -> Map<u64, (u64, SignalMapper)>;

impl View for HandleTable {
    type V = Map<u64, Signal>;

    open spec fn view(&self) -> Map<u64, Signal> {
        handle_entries(*self)
    }
}

impl View for AdaptorTable {
    type V = Map<u64, (u64, SignalMapper)>;

    open spec fn view(&self) -> Map<u64, (u64, SignalMapper)> {
        adaptor_entries(*self)
    }
}

/// Calls hashbrown's `HashMap::new`. Claimed: the map it returns holds no key.
#[verifier::external_body]
pub(crate) fn handle_table_new() -> (made: HandleTable)
    ensures
        handle_entries(made) =~= Map::empty(),
{
    HandleTable { map: HashMap::new() }
}

/// Calls hashbrown's `HashMap::is_empty`. Claimed: it returns whether the map holds no
/// key.
#[verifier::external_body]
pub(crate) fn handle_table_is_empty(table: &HandleTable) -> (empty: bool)
    ensures
        empty == (handle_entries(*table) =~= Map::empty()),
{
    table.map.is_empty()
}

/// Calls hashbrown's `HashMap::insert` and drops the value it returns. Claimed:
/// afterwards the key has the value given, whether or not it had one before,
/// and every other key is as it was.
#[verifier::external_body]
pub(crate) fn handle_table_insert(table: &mut HandleTable, key: u64, value: Signal)
    ensures
        handle_entries(*final(table)) == handle_entries(*old(table)).insert(key, value),
{
    table.map.insert(key, value);
}

/// Calls hashbrown's `HashMap::get`. Claimed: it returns the value of the key, if the
/// key has one, and nothing otherwise.
#[verifier::external_body]
pub(crate) fn handle_table_get(table: &HandleTable, key: u64) -> (found: Option<Signal>)
    ensures
        found == if handle_entries(*table).contains_key(key) {
            Some(handle_entries(*table)[key])
        } else {
            None
        },
{
    table.map.get(&key).copied()
}

/// Calls hashbrown's `HashMap::contains_key`. Claimed: it returns whether the key has a
/// value.
#[verifier::external_body]
pub(crate) fn handle_table_contains_key(table: &HandleTable, key: u64) -> (found: bool)
    ensures
        found == handle_entries(*table).contains_key(key),
{
    table.map.contains_key(&key)
}

/// Calls hashbrown's `HashMap::remove` and drops the value it returns. Claimed:
/// afterwards the key has no value and every other key is as it was.
#[verifier::external_body]
pub(crate) fn handle_table_remove(table: &mut HandleTable, key: u64)
    ensures
        handle_entries(*final(table)) == handle_entries(*old(table)).remove(key),
{
    table.map.remove(&key);
}

/// Calls hashbrown's `HashMap::new`. Claimed: the map it returns holds no key.
#[verifier::external_body]
pub(crate) fn adaptor_table_new() -> (made: AdaptorTable)
    ensures
        adaptor_entries(made) =~= Map::empty(),
{
    AdaptorTable { map: HashMap::new() }
}

/// Calls hashbrown's `HashMap::insert` and drops the value it returns. Claimed:
/// afterwards the key has the value given, whether or not it had one before,
/// and every other key is as it was.
#[verifier::external_body]
pub(crate) fn adaptor_table_insert(
    table: &mut AdaptorTable,
    key: u64,
    source: u64,
    mapper: SignalMapper,
)
    ensures
        adaptor_entries(*final(table)) == adaptor_entries(*old(table)).insert(
            key,
            (source, mapper),
        ),
{
    table.map.insert(key, (source, mapper));
}

/// Calls hashbrown's `HashMap::get`. Claimed: it returns the value of the key, if the
/// key has one, and nothing otherwise.
#[verifier::external_body]
pub(crate) fn adaptor_table_get(table: &AdaptorTable, key: u64) -> (found: Option<
    &(u64, SignalMapper),
>)
    ensures
        found == if adaptor_entries(*table).contains_key(key) {
            Some(&adaptor_entries(*table)[key])
        } else {
            None
        },
{
    table.map.get(&key)
}

/// Calls hashbrown's `HashMap::remove` and drops the value it returns. Claimed:
/// afterwards the key has no value and every other key is as it was.
#[verifier::external_body]
pub(crate) fn adaptor_table_remove(table: &mut AdaptorTable, key: u64)
    ensures
        adaptor_entries(*final(table)) == adaptor_entries(*old(table)).remove(key),
{
    table.map.remove(&key);
}

} // verus!
