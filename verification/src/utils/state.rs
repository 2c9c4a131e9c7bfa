//! A key-value store of shared states, with lazy insertion.
use std::collections::BTreeMap;
use std::sync::Arc;
use vstd::prelude::*;

use crate::arc_model::{lemma_shared_insert, lemma_shared_remove, shared_values};
use crate::key_laws::{collect_keys, lawful_key, sorted_keys_of};
use crate::state::{lookup, mapped, pointee};

verus! {

/// A store of states filed under keys.
pub trait StateStorage<Key, State>: Sized {
    /// The store's internal invariant.
    spec fn well_formed(&self) -> bool;

    /// Whether values of type `Key` can key the store.
    spec fn keys_lawful() -> bool;

    /// An empty store.
    fn new() -> (storage: Self)
        requires
            Self::keys_lawful(),
        ensures
            storage.well_formed(),
    ;

    /// Files `item` under `key`, replacing what was there.
    fn insert(&mut self, key: Key, item: State)
        requires
            old(self).well_formed(),
        ensures
            final(self).well_formed(),
    ;

    /// The state under `key`, if any.
    fn get(&self, key: &Key) -> (item: Option<Arc<State>>)
        requires
            self.well_formed(),
    ;

    /// Drops the state under `key`.
    fn remove(&mut self, key: &Key)
        requires
            old(self).well_formed(),
        ensures
            final(self).well_formed(),
    ;

    /// The keys in the store.
    fn list(&self) -> (keys: Vec<Key>)
        requires
            self.well_formed(),
    ;

    /// Whether a state is filed under `key`.
    fn contains(&self, key: &Key) -> (found: bool)
        requires
            self.well_formed(),
    ;

    /// Applies `f` to the state under `key`, if any, and files the state it
    /// gives back, if it gives one; tells whether there was a state.
    fn map<F>(&mut self, key: Key, f: F) -> (found: bool) where F: FnOnce(&State) -> Option<State>
        requires
            old(self).well_formed(),
            forall|s: &State| #[trigger] f.requires((s,)),
        ensures
            final(self).well_formed(),
    ;
}

/// A store of states, each shared through an `Arc` when handed out.
pub struct AtomticStateStorage<Key, State> {
    storage: BTreeMap<Key, Arc<State>>,
}

impl<Key, State> AtomticStateStorage<Key, State> {
    /// The stored states.
    pub closed spec fn states(&self) -> Map<Key, State> {
        shared_values(self.storage@)
    }
}

impl<Key: Ord + Clone, State> StateStorage<Key, State> for AtomticStateStorage<Key, State> {
    closed spec fn well_formed(&self) -> bool {
        &&& lawful_key::<Key>()
        &&& self.storage@.dom().finite()
    }

    open spec fn keys_lawful() -> bool {
        lawful_key::<Key>()
    }

    fn new() -> (storage: Self)
        ensures
            storage.states() == Map::<Key, State>::empty(),
    {
        let storage = AtomticStateStorage { storage: BTreeMap::new() };
        assert(storage.states() =~= Map::<Key, State>::empty());
        storage
    }

    fn insert(&mut self, key: Key, item: State)
        ensures
            final(self).states() == old(self).states().insert(key, item),
    {
        let shared = Arc::new(item);
        proof {
            lemma_shared_insert(self.storage@, key, shared);
        }
        self.storage.insert(key, shared);
    }

    fn get(&self, key: &Key) -> (item: Option<Arc<State>>)
        ensures
            pointee(item) == lookup(self.states(), *key),
    {
        assert(self.states().dom() =~= self.storage@.dom());
        match self.storage.get(key) {
            Some(a) => Some(a.clone()),
            None => None,
        }
    }

    fn remove(&mut self, key: &Key)
        ensures
            final(self).states() == old(self).states().remove(*key),
    {
        proof {
            lemma_shared_remove(self.storage@, *key);
        }
        self.storage.remove(key);
    }

    /// The keys in the store, in increasing order.
    fn list(&self) -> (keys: Vec<Key>)
        ensures
            sorted_keys_of(keys@, self.states()),
    {
        let keys = collect_keys(&self.storage);
        assert(self.states().dom() =~= self.storage@.dom());
        keys
    }

    fn contains(&self, key: &Key) -> (found: bool)
        ensures
            found == self.states().contains_key(*key),
    {
        assert(self.states().dom() =~= self.storage@.dom());
        self.storage.contains_key(key)
    }

    fn map<F>(&mut self, key: Key, f: F) -> (found: bool) where F: FnOnce(&State) -> Option<State>
        ensures
            found == old(self).states().contains_key(key),
            !found ==> final(self).states() == old(self).states(),
            found ==> exists|result: Option<State>|
                f.ensures((&old(self).states()[key],), result) && final(self).states() == mapped(
                    old(self).states(),
                    key,
                    result,
                ),
    {
        assert(old(self).states().dom() =~= old(self).storage@.dom());
        let current = match self.storage.get(&key) {
            Some(a) => Some(a.clone()),
            None => None,
        };
        match current {
            Some(state) => {
                let result = f(&*state);
                let ghost produced = result;
                assert(*state == old(self).states()[key]);
                assert(f.ensures((&old(self).states()[key],), produced));
                match result {
                    Some(new_val) => {
                        let shared = Arc::new(new_val);
                        proof {
                            lemma_shared_insert(self.storage@, key, shared);
                        }
                        self.storage.insert(key, shared);
                    },
                    None => {},
                }
                assert(self.states() == mapped(old(self).states(), key, produced));
                true
            },
            None => false,
        }
    }
}

impl<Key: Ord + Clone, State> AtomticStateStorage<Key, State> {
    /// The state under `key`; when there is none, `f` makes one, which is
    /// filed under `key` first. `f` is called only when the key is free.
    pub fn try_insert_deferred_returning<F>(&mut self, key: Key, f: F) -> (item: Option<Arc<State>>) where
        F: FnOnce() -> State,
        requires
            old(self).well_formed(),
            f.requires(()),
        ensures
            final(self).well_formed(),
            item is Some,
            !old(self).states().contains_key(key) ==> f.ensures((), *item->0),
            (final(self).states(), *item->0) == get_or_create(old(self).states(), key, *item->0),
    {
        assert(old(self).states().dom() =~= old(self).storage@.dom());
        let current = match self.storage.get(&key) {
            Some(a) => Some(a.clone()),
            None => None,
        };
        match current {
            Some(existing) => Some(existing),
            None => {
                let val = Arc::new(f());
                proof {
                    lemma_shared_insert(self.storage@, key, val);
                }
                self.storage.insert(key, val.clone());
                Some(val)
            },
        }
    }
}

/// Get-or-create in the model: the state under `key`, or `made` filed
/// there when the key is free. Gives the new states and the state handed out.
pub open spec fn get_or_create<Key, State>(states: Map<Key, State>, key: Key, made: State) -> (Map<
    Key,
    State,
>, State) {
    if states.contains_key(key) {
        (states, states[key])
    } else {
        (states.insert(key, made), made)
    }
}

/// A lazy insertion is idempotent: a second one for the same key changes
/// nothing and hands out the state the first one handed out, whatever it
/// would have made.
pub proof fn law_deferred_insert_idempotent<Key, State>(
    states: Map<Key, State>,
    key: Key,
    first: State,
    second: State,
)
    ensures
        ({
            let (after, handed) = get_or_create(states, key, first);
            get_or_create(after, key, second) == (after, handed)
        }),
{
}

/// After a lazy insertion the key holds exactly the state handed out.
pub proof fn law_deferred_insert_holds_handed<Key, State>(
    states: Map<Key, State>,
    key: Key,
    made: State,
)
    ensures
        ({
            let (after, handed) = get_or_create(states, key, made);
            lookup(after, key) == Some(handed)
        }),
{
}

} // verus!
