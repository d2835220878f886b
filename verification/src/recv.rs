//! The receiving handle: a cursor over the shared state that tracks its own
//! last-observed epoch, so independent handles can stand at different points
//! of the value history while sharing the single current slot.

use crate::state::{
    spec_baseline, spec_observe, spec_release_receiver, spec_wf, InitialPolicy, Observation, State,
    StateModel, WakeTicket,
};
use core::marker::PhantomData;
use vstd::prelude::*;

verus! {

/// The receiving half. Observes the shared state, returning or waiting for
/// each update and skipping intermediate values when behind. Its view is
/// the epoch of the last value it counts as seen.
pub struct Recv<T> {
    epoch: usize,
    payload: PhantomData<T>,
}

impl<T> View for Recv<T> {
    type V = nat;

    closed spec fn view(&self) -> nat {
        self.epoch as nat
    }
}

impl<T: Clone> Recv<T> {
    /// Register a fresh receiving handle on `state`: its baseline epoch
    /// follows the channel's initial-value policy.
    pub(crate) fn new(state: &mut State<T>) -> (r: Self)
        requires
            spec_wf(old(state)@),
            old(state)@.receivers < usize::MAX,
        ensures
            final(state)@ == (StateModel { receivers: old(state)@.receivers + 1, ..old(state)@ }),
            r@ == spec_baseline(old(state)@),
    {
        state.register_receiver();
        let current = state.epoch();
        let epoch = match state.initial_policy() {
            InitialPolicy::DeliverInitial => current - 1,
            InitialPolicy::SkipInitial => current,
        };
        Recv { epoch, payload: PhantomData }
    }

    /// One observation step: an unseen value is consumed (the handle's
    /// epoch advances to it and a copy is returned), a closed channel with
    /// nothing unseen ends the stream with `Ok(None)`, and an open one
    /// hands back the wake ticket to suspend on before retrying. The shared
    /// state is never changed, so concurrent handles are unaffected.
    pub fn next(&mut self, state: &mut State<T>) -> (r: Result<Option<T>, WakeTicket>)
        ensures
            *final(state) == *old(state),
            match spec_observe(old(state)@, old(self)@) {
                Observation::Fresh(e, w) => r matches Ok(o) && o matches Some(v) && cloned(w, v)
                    && final(self)@ == e,
                Observation::ClosedNoMore => r matches Ok(o) && o is None && *final(self) == *old(self),
                Observation::Pending(g) => r matches Err(t) && t@ == g && *final(self) == *old(self),
            },
    {
        match state.next(self.epoch) {
            Ok((epoch, value)) => {
                self.epoch = epoch;
                Ok(Some(value))
            },
            Err(None) => Ok(None),
            Err(Some(ticket)) => Err(ticket),
        }
    }

    /// Return a copy of the state's current value without consuming it:
    /// the handle's own epoch is untouched, so a later observation still
    /// delivers any unseen value.
    pub fn get(&self, state: &State<T>) -> (r: T)
        ensures
            cloned(state@.value, r),
    {
        state.get()
    }

    /// An independent receiving handle over the same state, standing at
    /// this handle's point of the value history.
    pub fn duplicate(&self, state: &mut State<T>) -> (r: Self)
        requires
            old(state)@.receivers < usize::MAX,
        ensures
            final(state)@ == (StateModel { receivers: old(state)@.receivers + 1, ..old(state)@ }),
            r@ == self@,
    {
        state.register_receiver();
        Recv { epoch: self.epoch, payload: PhantomData }
    }

    /// Release this handle: the receiver count drops, and under the
    /// symmetric policy the last release closes the channel.
    pub fn release(self, state: &mut State<T>)
        requires
            old(state)@.receivers >= 1,
            old(state)@.wake_generation < usize::MAX,
        ensures
            final(state)@ == spec_release_receiver(old(state)@),
    {
        state.release_receiver();
    }
}

} // verus!
