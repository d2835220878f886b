//! A single-slot, latest-value-wins synchronization channel.
//!
//! A sending side publishes values; receiving sides observe only the most
//! recently published value, silently skipping intermediate values produced
//! while they were not watching. The core is the channel's state machine:
//! the cell holding the current value, a monotonically increasing epoch, a
//! closed flag, a broadcast wake counter and the handle reference counts.
//! It is verified here as a plain value type whose transitions carry full
//! contracts, together with the handle types that drive it. An embedding
//! shares one [`State`] between tasks behind an exclusive lock, pairs the
//! wake counter with a real wake primitive, performs each transition as one
//! critical section, and suspends on the returned wake tickets.

use vstd::prelude::*;

mod laws;
mod recv;
mod send;
mod state;

pub use laws::{
    lemma_blocking_until_publish, lemma_close_delivers_pending, lemma_close_idempotent,
    lemma_coalescing, lemma_fresh_value_delivery, lemma_independent_receiver_epochs,
    lemma_last_receiver_closes, lemma_publish_all, spec_publish_all,
};
pub use recv::Recv;
pub use send::Send;
pub use state::{
    ClosePolicy, InitialPolicy, Observation, State, StateModel, WakeGroup, WakeTicket,
    spec_baseline, spec_close, spec_new_state, spec_observe, spec_publish, spec_release_receiver,
    spec_release_sender, spec_wf,
};

verus! {

/// Create a new channel holding `value`, with one sending and one
/// receiving handle.
///
/// The state machine is returned alongside the handles: an embedding places
/// it behind an exclusive lock that every handle operation goes through.
/// The two policy arguments fix, at construction time, whether the initial
/// value counts as unseen for a fresh receiver and which handle kind's
/// exhaustion closes the channel.
pub fn channel<T: Clone>(value: T, initial_policy: InitialPolicy, close_policy: ClosePolicy) -> (r:
    (State<T>, Send<T>, Recv<T>))
    ensures
        r.0@ == (StateModel {
            value,
            epoch: 1nat,
            closed: false,
            wake_generation: 0nat,
            senders: 1nat,
            receivers: 1nat,
            initial_policy,
            close_policy,
        }),
        r.2@ == spec_baseline(r.0@),
{
    let mut state = State::new(value, initial_policy, close_policy);
    let send = Send::new(&mut state);
    let recv = Recv::new(&mut state);
    (state, send, recv)
}

} // verus!
