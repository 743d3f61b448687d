//! What holds of the ledger over a whole history of ended sessions.

use vstd::prelude::*;

use crate::epoch::{Config, Epoch, Randomness};
use crate::ledger::{lookup, zero_randomness};
use crate::module::Module;
use crate::session::{NoteHistoricalRandomness, SessionIndex, SessionManager};

verus! {

/// The ledger after the epochs of `ended` were recorded in order, starting
/// from genesis.
pub open spec fn recorded_after(ended: Seq<Epoch>) -> Map<u64, Randomness>
    decreases ended.len(),
{
    if ended.len() == 0 {
        Map::empty()
    } else {
        let last = ended.last();
        recorded_after(ended.drop_last()).insert(last.epoch_index, last.randomness)
    }
}

/// The value that stands for "nothing recorded" is 32 bytes, each of them zero.
pub proof fn zero_randomness_is_all_zero()
    ensures
        zero_randomness()@.len() == 32,
        forall|i: int| 0 <= i < 32 ==> zero_randomness()@[i] == 0u8,
{
    broadcast use vstd::array::group_array_axioms;
}

/// No epoch of `ended` has the index `epoch`.
pub open spec fn never_ended(ended: Seq<Epoch>, epoch: u64) -> bool {
    forall|i: int| 0 <= i < ended.len() ==> (#[trigger] ended[i]).epoch_index != epoch
}

/// Recording one more epoch is one insertion into the ledger.
pub proof fn recording_is_insertion(ended: Seq<Epoch>, epoch: Epoch)
    ensures
        recorded_after(ended.push(epoch)) == recorded_after(ended).insert(
            epoch.epoch_index,
            epoch.randomness,
        ),
{
    assert(ended.push(epoch).drop_last() =~= ended);
}

/// Right after an epoch was recorded, a lookup of its index yields its
/// randomness, whatever was recorded for that index before.
pub proof fn last_record_is_read(ended: Seq<Epoch>, epoch: Epoch)
    ensures
        lookup(recorded_after(ended.push(epoch)), epoch.epoch_index) == epoch.randomness,
{
    recording_is_insertion(ended, epoch);
}

/// Recording epochs with other indices changes nothing for `epoch`: a lookup
/// yields after them what it yielded before them.
pub proof fn other_epochs_leave_entry(ended: Seq<Epoch>, later: Seq<Epoch>, epoch: u64)
    requires
        never_ended(later, epoch),
    ensures
        lookup(recorded_after(ended + later), epoch) == lookup(recorded_after(ended), epoch),
        recorded_after(ended + later).contains_key(epoch) == recorded_after(ended).contains_key(
            epoch,
        ),
    decreases later.len(),
{
    if later.len() == 0 {
        assert(ended + later =~= ended);
    } else {
        let last = later.last();
        let before = later.drop_last();
        assert(last == later[later.len() - 1]);
        assert forall|i: int| 0 <= i < before.len() implies (#[trigger] before[i]).epoch_index
            != epoch by {
            assert(before[i] == later[i]);
        }
        other_epochs_leave_entry(ended, before, epoch);
        assert(ended + later =~= (ended + before).push(last));
        recording_is_insertion(ended + before, last);
    }
}

/// An epoch that no session end ever recorded reads as 32 zero bytes.
pub proof fn never_recorded_reads_zero(ended: Seq<Epoch>, epoch: u64)
    requires
        never_ended(ended, epoch),
    ensures
        !recorded_after(ended).contains_key(epoch),
        lookup(recorded_after(ended), epoch) == zero_randomness(),
{
    let genesis = Seq::<Epoch>::empty();
    assert(genesis + ended =~= ended);
    other_epochs_leave_entry(genesis, ended, epoch);
}

/// Once recorded, the randomness of an epoch stays what it is until the same
/// index is recorded again.
pub proof fn record_stays_until_rewritten(ended: Seq<Epoch>, epoch: Epoch, later: Seq<Epoch>)
    requires
        never_ended(later, epoch.epoch_index),
    ensures
        lookup(recorded_after(ended.push(epoch) + later), epoch.epoch_index) == epoch.randomness,
{
    last_record_is_read(ended, epoch);
    other_epochs_leave_entry(ended.push(epoch), later, epoch.epoch_index);
}

/// Planning a session goes through to the inner manager: the step is the
/// inner manager's own, and every lookup in the ledger yields what it did.
pub proof fn new_session_passes_through<T: Config, I: SessionManager<T::ValidatorId>>(
    before: NoteHistoricalRandomness<T, I>,
    new_index: SessionIndex,
    after: NoteHistoricalRandomness<T, I>,
    validators: Option<Vec<T::ValidatorId>>,
)
    requires
        before.new_session_step(new_index, after, validators),
    ensures
        before.inner.new_session_step(new_index, after.inner, validators),
        after.module.runtime == before.module.runtime,
        after.module.historical() == before.module.historical(),
{
}

/// Starting a session goes through to the inner manager: the step is the
/// inner manager's own, and every lookup in the ledger yields what it did.
pub proof fn start_session_passes_through<T: Config, I: SessionManager<T::ValidatorId>>(
    before: NoteHistoricalRandomness<T, I>,
    start_index: SessionIndex,
    after: NoteHistoricalRandomness<T, I>,
)
    requires
        before.start_session_step(start_index, after),
    ensures
        before.inner.start_session_step(start_index, after.inner),
        after.module.runtime == before.module.runtime,
        after.module.historical() == before.module.historical(),
{
}

/// Ending a session is the inner manager's step and one record: the live
/// epoch then reads as its live randomness, every other epoch as before, and
/// the ledger is that of the history with the live epoch added.
pub proof fn end_session_records_live_epoch<T: Config, I: SessionManager<T::ValidatorId>>(
    before: NoteHistoricalRandomness<T, I>,
    end_index: SessionIndex,
    after: NoteHistoricalRandomness<T, I>,
    ended: Seq<Epoch>,
)
    requires
        before.end_session_step(end_index, after),
        before.module.historical() == recorded_after(ended),
    ensures
        before.inner.end_session_step(end_index, after.inner),
        after.module.historical() == recorded_after(
            ended.push(before.module.runtime.live_current()),
        ),
        lookup(after.module.historical(), before.module.runtime.live_current().epoch_index)
            == before.module.runtime.live_current().randomness,
        forall|other: u64|
            other != before.module.runtime.live_current().epoch_index ==> lookup(
                after.module.historical(),
                other,
            ) == lookup(before.module.historical(), other),
{
    recording_is_insertion(ended, before.module.runtime.live_current());
}

/// Derived randomness is a function of the subject and of the live
/// randomness alone: two modules that see the same live randomness give the
/// same answer for the same subject, whatever their ledgers hold.
pub proof fn random_is_deterministic<T: Config>(a: Module<T>, b: Module<T>, subject: &[u8])
    requires
        a.runtime.live_current().randomness == b.runtime.live_current().randomness,
    ensures
        a.spec_random(subject) == b.spec_random(subject),
{
}

} // verus!
