use std::collections::HashMap;
use vstd::prelude::*;

use crate::chess_move::Move;

verus! {

/// How the value of an entry relates to the true value of its position.
#[derive(Clone, Copy, Debug, PartialEq, Eq, Structural)]
pub enum EntryFlag {
    /// The value is exact.
    Exact,
    /// The search failed high: the value is a lower bound.
    Beta,
    /// No move raised alpha: the value is an upper bound.
    Alpha,
    /// The entry carries no bound.
    Null,
}

/// What the search remembers of one position.
#[derive(Clone, Copy, Debug, PartialEq, Eq, Structural)]
pub struct Entry {
    pub key: u64,
    pub flag: EntryFlag,
    pub value: isize,
    pub move_: Move,
    pub depth: u8,
}

/// A map from position hash to the last entry stored for that hash. A new
/// entry always replaces the old one.
pub struct TranspositionTable {
    map: HashMap<u64, Entry>,
}

impl View for TranspositionTable {
    type V = Map<u64, Entry>;

    closed spec fn view(&self) -> Map<u64, Entry> {
        self.map@
    }
}

impl TranspositionTable {
    pub fn new() -> (r: TranspositionTable)
        ensures
            r@ == Map::<u64, Entry>::empty(),
    {
        TranspositionTable { map: HashMap::new() }
    }

    /// Stores `entry` under `key`, replacing whatever was there.
    pub fn insert(&mut self, key: u64, entry: Entry)
        ensures
            final(self)@ == old(self)@.insert(key, entry),
    {
        broadcast use vstd::std_specs::hash::group_hash_axioms;
        self.map.insert(key, entry);
    }

    /// The entry stored under `key`, if any.
    pub fn retrieve(&self, key: u64) -> (r: Option<Entry>)
        ensures
            r == (if self@.contains_key(key) { Some(self@[key]) } else { None::<Entry> }),
    {
        broadcast use vstd::std_specs::hash::group_hash_axioms;
        match self.map.get(&key) {
            Some(e) => Some(*e),
            None => None,
        }
    }
}

} // verus!
