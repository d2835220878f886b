//! The channel's governing laws, stated over the state-machine model and
//! proved once for every payload type and every state the transitions can
//! produce.

use crate::state::{
    spec_baseline, spec_close, spec_new_state, spec_observe, spec_publish, spec_release_receiver,
    ClosePolicy, InitialPolicy, Observation, StateModel,
};
use vstd::prelude::*;

verus! {

/// The state after publishing every value of `vs` in order, oldest first.
pub open spec fn spec_publish_all<T>(m: StateModel<T>, vs: Seq<T>) -> StateModel<T>
    decreases vs.len(),
{
    if vs.len() == 0 {
        m
    } else {
        spec_publish(spec_publish_all(m, vs.drop_last()), vs.last())
    }
}

/// A run of publishes advances the epoch and the wake generation once per
/// value, stores exactly the last value, and touches nothing else.
pub proof fn lemma_publish_all<T>(m: StateModel<T>, vs: Seq<T>)
    ensures
        spec_publish_all(m, vs).epoch == m.epoch + vs.len(),
        spec_publish_all(m, vs).wake_generation == m.wake_generation + vs.len(),
        vs.len() > 0 ==> spec_publish_all(m, vs).value == vs.last(),
        vs.len() == 0 ==> spec_publish_all(m, vs) == m,
        spec_publish_all(m, vs).closed == m.closed,
        spec_publish_all(m, vs).senders == m.senders,
        spec_publish_all(m, vs).receivers == m.receivers,
        spec_publish_all(m, vs).initial_policy == m.initial_policy,
        spec_publish_all(m, vs).close_policy == m.close_policy,
    decreases vs.len(),
{
    if vs.len() > 0 {
        lemma_publish_all(m, vs.drop_last());
    }
}

/// Fresh-value delivery: on a channel constructed with initial value `v0`
/// under the deliver-initial policy, a fresh receiving handle's first
/// observation finds exactly the initial value, at epoch one.
pub proof fn lemma_fresh_value_delivery<T>(v0: T, close_policy: ClosePolicy)
    ensures
        spec_observe(
            spec_new_state(v0, InitialPolicy::DeliverInitial, close_policy),
            spec_baseline(spec_new_state(v0, InitialPolicy::DeliverInitial, close_policy)),
        ) == Observation::Fresh(1nat, v0),
{
}

/// Coalescing: however many values are published between two observations,
/// the next observation from any baseline the run has moved past finds
/// exactly the last published value — the intermediate ones are never
/// observable.
pub proof fn lemma_coalescing<T>(m: StateModel<T>, vs: Seq<T>, since: nat)
    requires
        vs.len() > 0,
        since < m.epoch + vs.len(),
    ensures
        spec_observe(spec_publish_all(m, vs), since) == Observation::Fresh(
            m.epoch + vs.len(),
            vs.last(),
        ),
{
    lemma_publish_all(m, vs);
}

/// Blocking until publish or close: an observation that finds nothing
/// unseen on an open channel yields a wake ticket drawn at the current
/// generation — unsignaled, so the observer suspends — and any later
/// publish or close signals that very ticket, so no wakeup is lost; on
/// re-check the observer then finds the fresh value, or the end of the
/// stream.
pub proof fn lemma_blocking_until_publish<T>(m: StateModel<T>, since: nat, v: T)
    ensures
        spec_observe(m, since) is Pending <==> (m.epoch <= since && !m.closed),
        spec_observe(m, since) matches Observation::Pending(g) ==> {
            &&& g == m.wake_generation
            &&& !(m.wake_generation > g)
            &&& spec_publish(m, v).wake_generation > g
            &&& spec_close(m).wake_generation > g
            &&& spec_observe(spec_close(m), since) == Observation::<T>::ClosedNoMore
        },
        (spec_observe(m, since) is Pending && since == m.epoch) ==> spec_observe(
            spec_publish(m, v),
            since,
        ) == Observation::Fresh(m.epoch + 1, v),
{
}

/// Closure delivers the pending value, then terminates: when a publish is
/// followed by a close, an observer that has not seen the published value
/// still receives it, and once it has, every further observation reports
/// the end of the stream.
pub proof fn lemma_close_delivers_pending<T>(m: StateModel<T>, v: T, since: nat)
    requires
        since <= m.epoch,
    ensures
        spec_observe(spec_close(spec_publish(m, v)), since) == Observation::Fresh(m.epoch + 1, v),
        spec_observe(spec_close(spec_publish(m, v)), m.epoch + 1) ==
            Observation::<T>::ClosedNoMore,
{
}

/// Publish-after-close rejection, receiver side: under the symmetric
/// closing policy, releasing the last receiving handle closes the channel —
/// and on a closed channel [`crate::Send::set`] returns the value back as
/// an error and leaves the state untouched.
pub proof fn lemma_last_receiver_closes<T>(m: StateModel<T>)
    requires
        m.receivers == 1,
        m.close_policy == ClosePolicy::EitherSide,
    ensures
        spec_release_receiver(m).closed,
{
}

/// Independent receiver epochs: what each receiving handle observes is a
/// function of the shared state and that handle's own last-seen epoch
/// alone — a handle that is behind finds a fresh value exactly when one
/// that has caught up does not, and observing never changes the shared
/// state (see the contract of [`crate::Recv::next`]), so one handle's
/// progress cannot move another's.
pub proof fn lemma_independent_receiver_epochs<T>(m: StateModel<T>, behind: nat, caught_up: nat)
    requires
        behind < m.epoch,
        caught_up >= m.epoch,
    ensures
        spec_observe(m, behind) == Observation::Fresh(m.epoch, m.value),
        !(spec_observe(m, caught_up) is Fresh),
{
}

/// Idempotent close: closing an already closed channel leaves every
/// observable component as it was, and the repeated wake broadcast is
/// harmless — every observation decides exactly as it did after the first
/// close.
pub proof fn lemma_close_idempotent<T>(m: StateModel<T>, since: nat)
    ensures
        spec_close(spec_close(m)).closed == spec_close(m).closed,
        spec_close(spec_close(m)).value == spec_close(m).value,
        spec_close(spec_close(m)).epoch == spec_close(m).epoch,
        spec_close(spec_close(m)).senders == spec_close(m).senders,
        spec_close(spec_close(m)).receivers == spec_close(m).receivers,
        spec_observe(spec_close(spec_close(m)), since) == spec_observe(spec_close(m), since),
{
}

} // verus!
