//! The map from keys to actions.

use vstd::prelude::*;
use std::collections::HashMap;
use crate::config::action::Action;
use crate::config::keys::KeyBind;

verus! {

broadcast use vstd::std_specs::hash::group_hash_axioms;

/// Maps keys to actions. It is filled once, from the defaults overlaid with
/// the user's configuration, and only read afterwards.
#[derive(Clone, Debug)]
pub struct KeyMap {
    /// Binds a key's identifier to an action.
    binds: HashMap<i32, Action>,
}

impl View for KeyMap {
    type V = Map<i32, Action>;

    closed spec fn view(&self) -> Map<i32, Action> {
        self.binds@
    }
}

impl KeyMap {
    /// An empty keymap.
    pub fn new() -> (m: Self)
        ensures
            m@ == Map::<i32, Action>::empty(),
    {
        Self { binds: HashMap::new() }
    }

    /// Binds a key to an action, replacing any earlier binding of that key.
    pub fn insert(&mut self, bind: KeyBind, action: Action)
        ensures
            final(self)@ == old(self)@.insert(bind.0, action),
    {
        self.binds.insert(bind.0, action);
    }

    /// The action bound to a given key, if any.
    pub fn get(&self, bind: &KeyBind) -> (r: Option<&Action>)
        ensures
            match r {
                Some(a) => self@.contains_key(bind.0) && *a == self@[bind.0],
                None => !self@.contains_key(bind.0),
            },
    {
        self.binds.get(&bind.0)
    }
}

} // verus!
