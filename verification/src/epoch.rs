//! Epoch descriptors and the interface to the consensus engine.

use vstd::prelude::*;

/// The randomness of one epoch: always exactly 32 bytes.
pub use sp_consensus_vrf::schnorrkel::Randomness;

verus! {

/// What the consensus engine reports of one epoch.
#[derive(Debug, Clone, Copy, PartialEq, Eq)]
pub struct Epoch {
    pub epoch_index: u64,
    pub start_slot: u64,
    pub duration: u64,
    pub randomness: Randomness,
}

/// The randomness of one epoch as handed to callers.
#[derive(Debug, Clone, Copy, PartialEq, Eq)]
pub struct BabeRandomness {
    pub epoch: u64,
    pub start_slot: u64,
    pub duration: u64,
    pub randomness: Randomness,
}

impl BabeRandomness {
    /// The answer that describes `epoch`: the same four values.
    pub open spec fn describing(epoch: Epoch) -> BabeRandomness {
        BabeRandomness {
            epoch: epoch.epoch_index,
            start_slot: epoch.start_slot,
            duration: epoch.duration,
            randomness: epoch.randomness,
        }
    }

    /// Builds the answer for an epoch that the consensus engine reported.
    pub fn from_epoch(epoch: &Epoch) -> (info: BabeRandomness)
        ensures
            info == Self::describing(*epoch),
    {
        BabeRandomness {
            epoch: epoch.epoch_index,
            start_slot: epoch.start_slot,
            duration: epoch.duration,
            randomness: epoch.randomness,
        }
    }
}

/// The runtime that the module lives in: the consensus engine that knows the
/// live epochs and mixes a subject with the live randomness, and the types
/// that the runtime chooses.
///
/// The value behind `&self` is one snapshot of the consensus state. An
/// implementation states what that snapshot holds through `live_current`,
/// `live_next` and `mix`, and its methods hand out exactly that.
pub trait Config {
    /// A stable ID for a validator.
    type ValidatorId;

    /// The output of the runtime's hash function.
    type Hash;

    /// The epoch that is running in this snapshot.
    spec fn live_current(&self) -> Epoch;

    /// The epoch that was announced to follow it.
    spec fn live_next(&self) -> Epoch;

    /// The runtime's mixing of a subject with an epoch's randomness.
    spec fn mix(subject: &[u8], randomness: Randomness) -> Self::Hash;

    /// Produces the descriptor of the current epoch.
    fn current_epoch(&self) -> (epoch: Epoch)
        ensures
            epoch == self.live_current(),
    ;

    /// Produces the descriptor of the next epoch, whose index follows the
    /// current one. The engine cannot count past `u64::MAX`.
    fn next_epoch(&self) -> (epoch: Epoch)
        requires
            self.live_current().epoch_index < u64::MAX,
        ensures
            epoch == self.live_next(),
            epoch.epoch_index == self.live_current().epoch_index + 1,
    ;

    /// Mixes `subject` with the randomness of the current epoch.
    fn random(&self, subject: &[u8]) -> (hash: Self::Hash)
        ensures
            hash == Self::mix(subject, self.live_current().randomness),
    ;
}

} // verus!
