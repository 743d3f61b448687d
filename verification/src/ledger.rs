//! The ledger: the randomness of every epoch that was recorded.

use std::collections::HashMap;
use vstd::prelude::*;

use crate::epoch::Randomness;

verus! {

broadcast use vstd::std_specs::hash::group_hash_axioms;

/// Historical randomness for each epoch. Keys are epoch indices; an entry
/// stays until the same epoch is recorded again, and nothing is ever removed.
pub struct HistoricalRandomness {
    entries: HashMap<u64, Randomness>,
}

impl View for HistoricalRandomness {
    type V = Map<u64, Randomness>;

    /// The recorded epochs, each with the randomness it was last recorded with.
    closed spec fn view(&self) -> Map<u64, Randomness> {
        self.entries@
    }
}

/// The value that stands for "nothing recorded": 32 zero bytes.
pub open spec fn zero_randomness() -> Randomness {
    vstd::array::spec_array_fill_for_copy_type::<u8, 32>(0u8)
}

/// What a lookup of `epoch` in `recorded` yields: the stored value, and 32
/// zero bytes for an epoch that was never recorded.
pub open spec fn lookup(recorded: Map<u64, Randomness>, epoch: u64) -> Randomness {
    if recorded.contains_key(epoch) {
        recorded[epoch]
    } else {
        zero_randomness()
    }
}

impl HistoricalRandomness {
    /// The ledger at genesis: nothing recorded.
    pub fn new() -> (ledger: Self)
        ensures
            ledger@ == Map::<u64, Randomness>::empty(),
    {
        HistoricalRandomness { entries: HashMap::new() }
    }

    /// The randomness recorded for `epoch`, or zeroes if there is none.
    pub fn get(&self, epoch: u64) -> (randomness: Randomness)
        ensures
            randomness == lookup(self@, epoch),
    {
        match self.entries.get(&epoch) {
            Some(stored) => *stored,
            None => [0u8; 32],
        }
    }

    /// Records `randomness` for `epoch`, replacing what was there.
    pub fn insert(&mut self, epoch: u64, randomness: Randomness)
        ensures
            final(self)@ == old(self)@.insert(epoch, randomness),
    {
        self.entries.insert(epoch, randomness);
    }
}

} // verus!
