//! The module: the ledger together with the runtime it serves, and the queries.

use vstd::prelude::*;

use crate::epoch::{BabeRandomness, Config, Epoch, Randomness};
use crate::ledger::{lookup, HistoricalRandomness};

verus! {

/// The randomness module of one runtime.
pub struct Module<T: Config> {
    /// The runtime: the live consensus state.
    pub runtime: T,
    /// The ledger: historical randomness for each epoch.
    pub historical_randomness: HistoricalRandomness,
}

impl<T: Config> Module<T> {
    /// The recorded epochs, each with the randomness it was last recorded with.
    pub open spec fn historical(&self) -> Map<u64, Randomness> {
        self.historical_randomness@
    }

    /// What `random` derives for `subject` in this state.
    pub open spec fn spec_random(&self, subject: &[u8]) -> T::Hash {
        T::mix(subject, self.runtime.live_current().randomness)
    }

    /// The module at genesis: no epoch recorded.
    pub fn new(runtime: T) -> (module: Self)
        ensures
            module.runtime == runtime,
            module.historical() == Map::<u64, Randomness>::empty(),
    {
        Module { runtime, historical_randomness: HistoricalRandomness::new() }
    }

    /// Return babe randomness info for current epoch.
    pub fn current_epoch(&self) -> (info: BabeRandomness)
        ensures
            info == BabeRandomness::describing(self.runtime.live_current()),
    {
        let epoch = self.runtime.current_epoch();
        BabeRandomness::from_epoch(&epoch)
    }

    /// Return babe randomness info for next epoch. Its index is one more than
    /// that of the current epoch.
    pub fn next_epoch(&self) -> (info: BabeRandomness)
        requires
            self.runtime.live_current().epoch_index < u64::MAX,
        ensures
            info == BabeRandomness::describing(self.runtime.live_next()),
            info.epoch == self.runtime.live_current().epoch_index + 1,
    {
        let epoch = self.runtime.next_epoch();
        BabeRandomness::from_epoch(&epoch)
    }

    /// Return babe randomness for historical epoch: what was last recorded
    /// for it, and zeroes for an epoch that never was.
    pub fn randomness_of(&self, epoch: u64) -> (randomness: Randomness)
        ensures
            randomness == lookup(self.historical(), epoch),
    {
        self.historical_randomness.get(epoch)
    }

    /// Return randomness with provider subject: the runtime's mixing of
    /// `subject` with the live randomness. The ledger plays no part.
    pub fn random(&self, subject: &[u8]) -> (hash: T::Hash)
        ensures
            hash == self.spec_random(subject),
    {
        self.runtime.random(subject)
    }

    /// Records the randomness of an epoch that ended, replacing what was
    /// recorded for the same index before. Nothing else changes.
    pub fn note_ended_epoch(&mut self, epoch: &Epoch)
        ensures
            final(self).runtime == old(self).runtime,
            final(self).historical() == old(self).historical().insert(
                epoch.epoch_index,
                epoch.randomness,
            ),
    {
        self.historical_randomness.insert(epoch.epoch_index, epoch.randomness);
    }
}

} // verus!
