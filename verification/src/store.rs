use crate::mode::TerminalMode;
use rustc_hash::FxBuildHasher;
use std::collections::HashMap;
use vstd::prelude::*;

verus! {

/// The hasher factory of `rustc_hash`, carried through as an opaque value.
#[verifier::external_type_specification]
#[verifier::external_body]
pub struct ExFxBuildHasher(FxBuildHasher);

/// `HashMap::get` on a table hashed by `rustc_hash::FxBuildHasher`.
/// Trusted: it looks the key up in the table's contents and changes nothing.
#[verifier::external_body]
fn table_get<'a>(table: &'a HashMap<u32, TerminalMode, FxBuildHasher>, id: u32) -> (found: Option<
    &'a TerminalMode,
>)
    ensures
        table@.contains_key(id) ==> found == Some(&table@[id]),
        !table@.contains_key(id) ==> found is None,
{
    table.get(&id)
}

/// `HashMap::remove` on a table hashed by `rustc_hash::FxBuildHasher`.
/// Trusted: the key leaves the contents, every other entry stays, and the
/// value the key had is returned.
#[verifier::external_body]
fn table_remove(table: &mut HashMap<u32, TerminalMode, FxBuildHasher>, id: u32) -> (removed: Option<
    TerminalMode,
>)
    ensures
        final(table)@ == old(table)@.remove(id),
        old(table)@.contains_key(id) ==> removed == Some(old(table)@[id]),
        !old(table)@.contains_key(id) ==> removed is None,
{
    table.remove(&id)
}

/// `HashMap::insert` on a table hashed by `rustc_hash::FxBuildHasher`.
/// Trusted: afterwards the key maps to the given value and every other entry
/// is as before.
#[verifier::external_body]
fn table_insert(table: &mut HashMap<u32, TerminalMode, FxBuildHasher>, id: u32, mode: TerminalMode)
    ensures
        final(table)@ == old(table)@.insert(id, mode),
{
    table.insert(id, mode);
}

/// Saved terminal modes by resource identifier. An identifier is present
/// exactly while its resource is in raw mode with a known earlier mode.
pub struct TtyModeStore {
    modes: HashMap<u32, TerminalMode, FxBuildHasher>,
}

impl View for TtyModeStore {
    type V = Map<u32, TerminalMode>;

    closed spec fn view(&self) -> Map<u32, TerminalMode> {
        self.modes@
    }
}

/// The snapshot saved for `id`, if there is one.
pub open spec fn saved(store: Map<u32, TerminalMode>, id: u32) -> Option<TerminalMode> {
    if store.contains_key(id) {
        Some(store[id])
    } else {
        None
    }
}

impl TtyModeStore {
    /// An empty store.
    pub fn new() -> (store: TtyModeStore)
        ensures
            store@ == Map::<u32, TerminalMode>::empty(),
    {
        TtyModeStore { modes: HashMap::default() }
    }

    /// The snapshot saved for `id`, left in place.
    pub fn get(&self, id: u32) -> (found: Option<TerminalMode>)
        ensures
            found == saved(self@, id),
    {
        match table_get(&self.modes, id) {
            Some(mode) => Some(*mode),
            None => None,
        }
    }

    /// Removes and returns the snapshot saved for `id`.
    pub fn take(&mut self, id: u32) -> (taken: Option<TerminalMode>)
        ensures
            taken == saved(old(self)@, id),
            final(self)@ == old(self)@.remove(id),
    {
        table_remove(&mut self.modes, id)
    }

    /// Saves `mode` for `id`, replacing what was saved before.
    pub fn set(&mut self, id: u32, mode: TerminalMode)
        ensures
            final(self)@ == old(self)@.insert(id, mode),
            saved(final(self)@, id) == Some(mode),
    {
        table_insert(&mut self.modes, id, mode);
    }
}

impl Default for TtyModeStore {
    /// An empty store.
    fn default() -> (store: TtyModeStore)
        ensures
            store@ == Map::<u32, TerminalMode>::empty(),
    {
        TtyModeStore::new()
    }
}

/// What is set can be read back and taken once; other identifiers are not
/// touched by either.
pub proof fn lemma_store_round_trip(
    store: Map<u32, TerminalMode>,
    id: u32,
    other: u32,
    mode: TerminalMode,
)
    requires
        other != id,
    ensures
        saved(store.insert(id, mode), id) == Some(mode),
        saved(store.insert(id, mode).remove(id), id) is None,
        saved(store.insert(id, mode), other) == saved(store, other),
        saved(store.remove(id), other) == saved(store, other),
        !store.contains_key(id) ==> store.insert(id, mode).remove(id) == store,
{
    assert(store.insert(id, mode).remove(id) =~= store.remove(id));
    if !store.contains_key(id) {
        assert(store.remove(id) =~= store);
    }
}

} // verus!
