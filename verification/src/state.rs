//! A key-value store of shared states.
use std::collections::BTreeMap;
use std::sync::Arc;
use vstd::prelude::*;

use crate::arc_model::{lemma_shared_insert, lemma_shared_remove, shared_values};
use crate::key_laws::{collect_keys, lawful_key, sorted_keys_of};

verus! {

/// A store of states filed under keys.
pub trait StateStorage<Key, State>: Sized {
    /// The store's internal invariant.
    spec fn well_formed(&self) -> bool;

    /// Whether values of type `Key` can key the store.
    spec fn keys_lawful() -> bool;

    /// An empty store.
    fn new() -> (storage: Self)
        requires
            Self::keys_lawful(),
        ensures
            storage.well_formed(),
    ;

    /// Files `item` under `key`, replacing what was there.
    fn set(&mut self, key: Key, item: State)
        requires
            old(self).well_formed(),
        ensures
            final(self).well_formed(),
    ;

    /// The state under `key`, if any.
    fn get(&self, key: &Key) -> (item: Option<Arc<State>>)
        requires
            self.well_formed(),
    ;

    /// Drops the state under `key`.
    fn remove(&mut self, key: &Key)
        requires
            old(self).well_formed(),
        ensures
            final(self).well_formed(),
    ;

    /// The keys in the store.
    fn list(&self) -> (keys: Vec<Key>)
        requires
            self.well_formed(),
    ;

    /// Whether a state is filed under `key`.
    fn has(&self, key: &Key) -> (found: bool)
        requires
            self.well_formed(),
    ;

    /// Files `item` under a free `key`; tells whether it was filed.
    fn add(&mut self, key: Key, item: State) -> (added: bool)
        requires
            old(self).well_formed(),
        ensures
            final(self).well_formed(),
    ;

    /// Replaces the state under an occupied `key`; tells whether it was replaced.
    fn replace(&mut self, key: Key, item: State) -> (replaced: bool)
        requires
            old(self).well_formed(),
        ensures
            final(self).well_formed(),
    ;

    /// Applies `f` to the state under `key`, if any, and files the state it
    /// gives back, if it gives one; tells whether there was a state.
    fn map<F>(&mut self, key: Key, f: F) -> (found: bool) where F: FnOnce(&State) -> Option<State>
        requires
            old(self).well_formed(),
            forall|s: &State| #[trigger] f.requires((s,)),
        ensures
            final(self).well_formed(),
    ;
}

/// The state under `key` in `states`, if any.
pub open spec fn lookup<Key, State>(states: Map<Key, State>, key: Key) -> Option<State> {
    if states.contains_key(key) {
        Some(states[key])
    } else {
        None
    }
}

/// What an optional shared state points to.
pub open spec fn pointee<State>(item: Option<Arc<State>>) -> Option<State> {
    match item {
        Some(a) => Some(*a),
        None => None,
    }
}

/// The states after a map step: `f` gave `result` for the state under `key`.
pub open spec fn mapped<Key, State>(states: Map<Key, State>, key: Key, result: Option<State>) -> Map<
    Key,
    State,
> {
    match result {
        Some(v) => states.insert(key, v),
        None => states,
    }
}

/// Adding in the model: `item` is filed under `key` only if `key` is free.
/// Gives the new states and whether it was filed.
pub open spec fn add_model<Key, State>(states: Map<Key, State>, key: Key, item: State) -> (Map<
    Key,
    State,
>, bool) {
    if states.contains_key(key) {
        (states, false)
    } else {
        (states.insert(key, item), true)
    }
}

/// Replacing in the model: `item` is filed under `key` only if `key` is
/// occupied. Gives the new states and whether it was filed.
pub open spec fn replace_model<Key, State>(states: Map<Key, State>, key: Key, item: State) -> (Map<
    Key,
    State,
>, bool) {
    if states.contains_key(key) {
        (states.insert(key, item), true)
    } else {
        (states, false)
    }
}

/// A store of states, each shared through an `Arc` when handed out.
pub struct AtomticStateStorage<Key, State> {
    storage: BTreeMap<Key, Arc<State>>,
}

impl<Key, State> AtomticStateStorage<Key, State> {
    /// The stored states.
    pub closed spec fn states(&self) -> Map<Key, State> {
        shared_values(self.storage@)
    }
}

impl<Key: Ord + Clone, State> StateStorage<Key, State> for AtomticStateStorage<Key, State> {
    closed spec fn well_formed(&self) -> bool {
        &&& lawful_key::<Key>()
        &&& self.storage@.dom().finite()
    }

    open spec fn keys_lawful() -> bool {
        lawful_key::<Key>()
    }

    fn new() -> (storage: Self)
        ensures
            storage.states() == Map::<Key, State>::empty(),
    {
        let storage = AtomticStateStorage { storage: BTreeMap::new() };
        assert(storage.states() =~= Map::<Key, State>::empty());
        storage
    }

    fn set(&mut self, key: Key, item: State)
        ensures
            final(self).states() == old(self).states().insert(key, item),
    {
        let shared = Arc::new(item);
        proof {
            lemma_shared_insert(self.storage@, key, shared);
        }
        self.storage.insert(key, shared);
    }

    fn get(&self, key: &Key) -> (item: Option<Arc<State>>)
        ensures
            pointee(item) == lookup(self.states(), *key),
    {
        assert(self.states().dom() =~= self.storage@.dom());
        match self.storage.get(key) {
            Some(a) => Some(a.clone()),
            None => None,
        }
    }

    fn remove(&mut self, key: &Key)
        ensures
            final(self).states() == old(self).states().remove(*key),
    {
        proof {
            lemma_shared_remove(self.storage@, *key);
        }
        self.storage.remove(key);
    }

    /// The keys in the store, in increasing order.
    fn list(&self) -> (keys: Vec<Key>)
        ensures
            sorted_keys_of(keys@, self.states()),
    {
        let keys = collect_keys(&self.storage);
        assert(self.states().dom() =~= self.storage@.dom());
        keys
    }

    fn has(&self, key: &Key) -> (found: bool)
        ensures
            found == self.states().contains_key(*key),
    {
        assert(self.states().dom() =~= self.storage@.dom());
        self.storage.contains_key(key)
    }

    fn add(&mut self, key: Key, item: State) -> (added: bool)
        ensures
            (final(self).states(), added) == add_model(old(self).states(), key, item),
    {
        assert(old(self).states().dom() =~= old(self).storage@.dom());
        if self.storage.contains_key(&key) {
            return false;
        }
        let shared = Arc::new(item);
        proof {
            lemma_shared_insert(self.storage@, key, shared);
        }
        self.storage.insert(key, shared);
        true
    }

    fn replace(&mut self, key: Key, item: State) -> (replaced: bool)
        ensures
            (final(self).states(), replaced) == replace_model(old(self).states(), key, item),
    {
        assert(old(self).states().dom() =~= old(self).storage@.dom());
        if !self.storage.contains_key(&key) {
            return false;
        }
        let shared = Arc::new(item);
        proof {
            lemma_shared_insert(self.storage@, key, shared);
        }
        self.storage.insert(key, shared);
        true
    }

    fn map<F>(&mut self, key: Key, f: F) -> (found: bool) where F: FnOnce(&State) -> Option<State>
        ensures
            found == old(self).states().contains_key(key),
            !found ==> final(self).states() == old(self).states(),
            found ==> exists|result: Option<State>|
                f.ensures((&old(self).states()[key],), result) && final(self).states() == mapped(
                    old(self).states(),
                    key,
                    result,
                ),
    {
        assert(old(self).states().dom() =~= old(self).storage@.dom());
        let current = match self.storage.get(&key) {
            Some(a) => Some(a.clone()),
            None => None,
        };
        match current {
            Some(state) => {
                let result = f(&*state);
                let ghost produced = result;
                assert(*state == old(self).states()[key]);
                assert(f.ensures((&old(self).states()[key],), produced));
                match result {
                    Some(new_val) => {
                        let shared = Arc::new(new_val);
                        proof {
                            lemma_shared_insert(self.storage@, key, shared);
                        }
                        self.storage.insert(key, shared);
                    },
                    None => {},
                }
                assert(self.states() == mapped(old(self).states(), key, produced));
                true
            },
            None => false,
        }
    }
}

/// What a set wrote is what a get reads back.
pub proof fn law_get_after_set<Key, State>(states: Map<Key, State>, key: Key, item: State)
    ensures
        lookup(states.insert(key, item), key) == Some(item),
{
}

/// An add never overwrites: under an occupied key it changes nothing, and
/// under a free key it files the item, as a get then shows.
pub proof fn law_add_never_overwrites<Key, State>(states: Map<Key, State>, key: Key, item: State)
    ensures
        states.contains_key(key) ==> add_model(states, key, item) == (states, false),
        !states.contains_key(key) ==> lookup(add_model(states, key, item).0, key) == Some(item),
{
}

/// A replace never creates: under a free key it changes nothing, and under
/// an occupied key it files the item, as a get then shows.
pub proof fn law_replace_never_creates<Key, State>(states: Map<Key, State>, key: Key, item: State)
    ensures
        !states.contains_key(key) ==> replace_model(states, key, item) == (states, false),
        states.contains_key(key) ==> lookup(replace_model(states, key, item).0, key) == Some(item),
{
}

/// After a remove nothing is filed under the key, and other keys are untouched.
pub proof fn law_remove_forgets<Key, State>(states: Map<Key, State>, key: Key, other: Key)
    requires
        other != key,
    ensures
        lookup(states.remove(key), key) == None::<State>,
        lookup(states.remove(key), other) == lookup(states, other),
{
}

} // verus!
