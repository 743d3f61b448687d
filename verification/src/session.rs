//! Session managers, and the one that records the randomness of ended epochs.

use vstd::prelude::*;

use crate::epoch::Config;
use crate::module::Module;

/// Index of a session.
pub use sp_staking::SessionIndex;

verus! {

/// A manager of session changes.
///
/// What a call may do is the implementation's to say: for each method it gives
/// the relation between the manager before the call, the manager after it and
/// the value returned. An implementation that gives none promises nothing:
/// the relation then holds of any outcome.
pub trait SessionManager<ValidatorId>: Sized {
    /// What `new_session` may do.
    open spec fn new_session_step(
        self,
        new_index: SessionIndex,
        after: Self,
        validators: Option<Vec<ValidatorId>>,
    ) -> bool {
        true
    }

    /// What `end_session` may do.
    open spec fn end_session_step(self, end_index: SessionIndex, after: Self) -> bool {
        true
    }

    /// What `start_session` may do.
    open spec fn start_session_step(self, start_index: SessionIndex, after: Self) -> bool {
        true
    }

    /// Plans a new session, and optionally provides the new validator set.
    fn new_session(&mut self, new_index: SessionIndex) -> (validators: Option<Vec<ValidatorId>>)
        ensures
            old(self).new_session_step(new_index, *final(self), validators),
    ;

    /// Ends the session.
    fn end_session(&mut self, end_index: SessionIndex)
        ensures
            old(self).end_session_step(end_index, *final(self)),
    ;

    /// Starts the session.
    fn start_session(&mut self, start_index: SessionIndex)
        ensures
            old(self).start_session_step(start_index, *final(self)),
    ;
}

/// A `SessionManager` that wraps an inner `I` and also sets the historical
/// randomness of the ending session.
pub struct NoteHistoricalRandomness<T: Config, I: SessionManager<T::ValidatorId>> {
    /// The module whose ledger is written.
    pub module: Module<T>,
    /// The manager that does the work.
    pub inner: I,
}

impl<T: Config, I: SessionManager<T::ValidatorId>> NoteHistoricalRandomness<T, I> {
    /// Wraps `inner`, recording into `module`.
    pub fn new(module: Module<T>, inner: I) -> (manager: Self)
        ensures
            manager.module == module,
            manager.inner == inner,
    {
        NoteHistoricalRandomness { module, inner }
    }
}

impl<T: Config, I: SessionManager<T::ValidatorId>> SessionManager<
    T::ValidatorId,
> for NoteHistoricalRandomness<T, I> {
    /// The inner manager's step, with the module untouched.
    open spec fn new_session_step(
        self,
        new_index: SessionIndex,
        after: Self,
        validators: Option<Vec<T::ValidatorId>>,
    ) -> bool {
        &&& self.inner.new_session_step(new_index, after.inner, validators)
        &&& after.module == self.module
    }

    /// The inner manager's step, then one write: the live epoch's randomness
    /// under the live epoch's index.
    open spec fn end_session_step(self, end_index: SessionIndex, after: Self) -> bool {
        let ended = self.module.runtime.live_current();
        &&& self.inner.end_session_step(end_index, after.inner)
        &&& after.module.runtime == self.module.runtime
        &&& after.module.historical() == self.module.historical().insert(
            ended.epoch_index,
            ended.randomness,
        )
    }

    /// The inner manager's step, with the module untouched.
    open spec fn start_session_step(self, start_index: SessionIndex, after: Self) -> bool {
        &&& self.inner.start_session_step(start_index, after.inner)
        &&& after.module == self.module
    }

    /// Forwards to the inner manager and returns what it returned. The
    /// module, and with it the ledger, stays as it was.
    fn new_session(&mut self, new_index: SessionIndex) -> (validators: Option<Vec<T::ValidatorId>>)
        ensures
            old(self).inner.new_session_step(new_index, final(self).inner, validators),
            final(self).module == old(self).module,
    {
        self.inner.new_session(new_index)
    }

    /// Forwards to the inner manager, then records the randomness of the
    /// epoch that is ending under that epoch's index: one write, which
    /// replaces an earlier record of the same epoch.
    fn end_session(&mut self, end_index: SessionIndex)
        ensures
            old(self).inner.end_session_step(end_index, final(self).inner),
            final(self).module.runtime == old(self).module.runtime,
            final(self).module.historical() == old(self).module.historical().insert(
                old(self).module.runtime.live_current().epoch_index,
                old(self).module.runtime.live_current().randomness,
            ),
    {
        self.inner.end_session(end_index);
        let epoch = self.module.runtime.current_epoch();
        self.module.note_ended_epoch(&epoch);
    }

    /// Forwards to the inner manager. The module, and with it the ledger,
    /// stays as it was.
    fn start_session(&mut self, start_index: SessionIndex)
        ensures
            old(self).inner.start_session_step(start_index, final(self).inner),
            final(self).module == old(self).module,
    {
        self.inner.start_session(start_index)
    }
}

} // verus!
