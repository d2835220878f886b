//! The sending handle: publishes new values into the shared slot,
//! rejecting a publish once the channel is closed so the value is handed
//! back to the caller instead of being lost.

use crate::recv::Recv;
use crate::state::{
    spec_baseline, spec_publish, spec_release_sender, spec_wf, State, StateModel,
};
use core::marker::PhantomData;
use vstd::prelude::*;
use vstd::std_specs::cmp::PartialEqSpec;

verus! {

/// The sending half. Sends new values to the receiving halves, overwriting
/// any value they have not observed yet.
pub struct Send<T> {
    payload: PhantomData<T>,
}

impl<T: Clone> Send<T> {
    /// Register a fresh sending handle on `state`.
    pub(crate) fn new(state: &mut State<T>) -> (r: Self)
        requires
            old(state)@.senders < usize::MAX,
        ensures
            final(state)@ == (StateModel { senders: old(state)@.senders + 1, ..old(state)@ }),
    {
        state.register_sender();
        Send { payload: PhantomData }
    }

    /// Publish a new value: the slot is overwritten, the epoch advances and
    /// all waiters are woken. Once the channel is closed the value is
    /// rejected and handed back unchanged, so the caller decides its
    /// disposition.
    pub fn set(&mut self, state: &mut State<T>, value: T) -> (r: Result<(), T>)
        requires
            !old(state)@.closed ==> old(state)@.epoch < usize::MAX && old(state)@.wake_generation < usize::MAX,
        ensures
            old(state)@.closed ==> r == Err::<(), T>(value) && *final(state) == *old(state),
            !old(state)@.closed ==> r == Ok::<(), T>(()) && final(state)@ == spec_publish(
                old(state)@,
                value,
            ),
    {
        if state.is_closed() {
            Err(value)
        } else {
            state.set(value);
            Ok(())
        }
    }

    /// Return a copy of the latest value without affecting any observer.
    pub fn get(&self, state: &State<T>) -> (r: T)
        ensures
            cloned(state@.value, r),
    {
        state.get()
    }

    /// Create a new receiving half on the same channel; its epoch baseline
    /// follows the channel's initial-value policy.
    pub fn recv(&self, state: &mut State<T>) -> (r: Recv<T>)
        requires
            spec_wf(old(state)@),
            old(state)@.receivers < usize::MAX,
        ensures
            final(state)@ == (StateModel { receivers: old(state)@.receivers + 1, ..old(state)@ }),
            r@ == spec_baseline(old(state)@),
    {
        Recv::new(state)
    }

    /// An independent sending handle on the same channel.
    pub fn duplicate(&self, state: &mut State<T>) -> (r: Self)
        requires
            old(state)@.senders < usize::MAX,
        ensures
            final(state)@ == (StateModel { senders: old(state)@.senders + 1, ..old(state)@ }),
    {
        state.register_sender();
        Send { payload: PhantomData }
    }

    /// Release this handle: the sender count drops, and the last release
    /// closes the channel and wakes all waiters.
    pub fn release(self, state: &mut State<T>)
        requires
            old(state)@.senders >= 1,
            old(state)@.wake_generation < usize::MAX,
        ensures
            final(state)@ == spec_release_sender(old(state)@),
    {
        state.release_sender();
    }
}

impl<T: Clone + PartialEq> Send<T> {
    /// Publish a new value only if it differs from the stored one, so
    /// observers are not woken for unchanged state. A closed channel
    /// rejects the value as [`Self::set`] does.
    pub fn set_if(&mut self, state: &mut State<T>, value: T) -> (r: Result<(), T>)
        requires
            !old(state)@.closed ==> old(state)@.epoch < usize::MAX && old(state)@.wake_generation < usize::MAX,
        ensures
            old(state)@.closed ==> r == Err::<(), T>(value) && *final(state) == *old(state),
            !old(state)@.closed ==> r == Ok::<(), T>(()) && (final(state)@ == old(state)@ || final(state)@ == spec_publish(old(state)@, value)),
            !old(state)@.closed && T::obeys_eq_spec() ==> final(state)@ == (if old(state)@.value.eq_spec(&value) {
                old(state)@
            } else {
                spec_publish(old(state)@, value)
            }),
    {
        if state.is_closed() {
            Err(value)
        } else {
            state.set_if(value);
            Ok(())
        }
    }
}

} // verus!
