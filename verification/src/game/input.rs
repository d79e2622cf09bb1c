//! The keys held down during one frame.

use vstd::prelude::*;

verus! {

/// A logical key that the game reacts to.
#[derive(Clone, Copy, Debug, PartialEq, Eq, Structural)]
pub enum Key {
    MoveUp,
    MoveDown,
}

/// The set of keys that are held down.
#[derive(Clone, Copy, Debug, PartialEq, Eq)]
pub struct KeySet {
    up: bool,
    down: bool,
}

impl View for KeySet {
    type V = Set<Key>;

    closed spec fn view(&self) -> Set<Key> {
        Set::new(
            |k: Key|
                match k {
                    Key::MoveUp => self.up,
                    Key::MoveDown => self.down,
                },
        )
    }
}

impl KeySet {
    /// No key held.
    pub fn new() -> (keys: KeySet)
        ensures
            keys@ == Set::<Key>::empty(),
    {
        let keys = KeySet { up: false, down: false };
        assert(keys@ =~= Set::<Key>::empty());
        keys
    }

    pub fn contains(&self, key: Key) -> (held: bool)
        ensures
            held == self@.contains(key),
    {
        match key {
            Key::MoveUp => self.up,
            Key::MoveDown => self.down,
        }
    }

    /// Records that `key` went down; says whether it was up before.
    pub fn insert(&mut self, key: Key) -> (fresh: bool)
        ensures
            final(self)@ == old(self)@.insert(key),
            fresh == !old(self)@.contains(key),
    {
        let fresh = !self.contains(key);
        match key {
            Key::MoveUp => {
                self.up = true;
            },
            Key::MoveDown => {
                self.down = true;
            },
        }
        assert(self@ =~= old(self)@.insert(key));
        fresh
    }

    /// Records that `key` came up; says whether it was down before.
    pub fn remove(&mut self, key: Key) -> (held: bool)
        ensures
            final(self)@ == old(self)@.remove(key),
            held == old(self)@.contains(key),
    {
        let held = self.contains(key);
        match key {
            Key::MoveUp => {
                self.up = false;
            },
            Key::MoveDown => {
                self.down = false;
            },
        }
        assert(self@ =~= old(self)@.remove(key));
        held
    }
}

} // verus!
