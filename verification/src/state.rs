//! The channel's shared state machine: current value, epoch, closed flag,
//! wake counter and handle reference counts, with every transition verified.

use vstd::prelude::*;
use vstd::std_specs::cmp::PartialEqSpec;

verus! {

/// Construction-time choice of the epoch baseline a fresh receiving handle
/// starts from.
#[derive(Clone, Copy, PartialEq, Eq, Structural, Debug)]
pub enum InitialPolicy {
    /// The value currently stored counts as unseen: the handle's first
    /// observation returns it.
    DeliverInitial,
    /// The value currently stored counts as already seen: the handle only
    /// observes values published after its creation.
    SkipInitial,
}

/// Construction-time choice of which handle kind's exhaustion closes the
/// channel.
#[derive(Clone, Copy, PartialEq, Eq, Structural, Debug)]
pub enum ClosePolicy {
    /// Only the last sending handle's release closes the channel.
    SenderOnly,
    /// The last handle of either kind closes the channel.
    EitherSide,
}

/// An opaque token obtained together with a "nothing new yet" observation.
/// A suspended observer waits until the ticket is signaled, which happens
/// exactly when a wake broadcast strictly later than the ticket occurs.
#[derive(Clone, Copy, Debug)]
pub struct WakeTicket {
    generation: usize,
}

impl View for WakeTicket {
    type V = nat;

    closed spec fn view(&self) -> nat {
        self.generation as nat
    }
}

/// A broadcast-style wake primitive, modeled as a generation counter: every
/// broadcast increments the generation, and a ticket is signaled exactly
/// when the generation has moved past the one the ticket was drawn at. A
/// ticket drawn after a broadcast is therefore unaffected by it.
pub struct WakeGroup {
    generation: usize,
}

impl View for WakeGroup {
    type V = nat;

    closed spec fn view(&self) -> nat {
        self.generation as nat
    }
}

impl WakeGroup {
    /// A fresh wake group on which no broadcast has happened yet.
    pub fn new() -> (w: Self)
        ensures
            w@ == 0nat,
    {
        WakeGroup { generation: 0 }
    }

    /// Draw a ticket recording the current generation. The caller must do
    /// this atomically with the decision to wait.
    pub fn ticket(&self) -> (t: WakeTicket)
        ensures
            t@ == self@,
    {
        WakeTicket { generation: self.generation }
    }

    /// Wake every ticket drawn before this call.
    pub fn notify_all(&mut self)
        requires
            old(self)@ < usize::MAX,
        ensures
            final(self)@ == old(self)@ + 1,
    {
        self.generation = self.generation + 1;
    }

    /// Whether a broadcast strictly later than `t` has occurred.
    pub fn is_signaled(&self, t: WakeTicket) -> (r: bool)
        ensures
            r == (self@ > t@),
    {
        self.generation > t.generation
    }
}

/// The mathematical model of the shared channel state.
pub struct StateModel<T> {
    /// The payload as of the latest epoch.
    pub value: T,
    /// Version marker of the stored value; strictly increases by one on
    /// every publish.
    pub epoch: nat,
    /// One-way flag: set when the closing-authority handles are exhausted,
    /// never reset.
    pub closed: bool,
    /// Number of wake broadcasts performed so far.
    pub wake_generation: nat,
    /// Count of live sending handles.
    pub senders: nat,
    /// Count of live receiving handles.
    pub receivers: nat,
    /// Epoch baseline policy for fresh receiving handles.
    pub initial_policy: InitialPolicy,
    /// Which handle kind's exhaustion closes the channel.
    pub close_policy: ClosePolicy,
}

/// A state model is well formed when its epoch has moved past zero, which
/// every state constructed through [`State::new`] has from the start.
pub open spec fn spec_wf<T>(m: StateModel<T>) -> bool {
    m.epoch >= 1
}

/// The model of a freshly constructed state holding `value`.
pub open spec fn spec_new_state<T>(
    value: T,
    initial_policy: InitialPolicy,
    close_policy: ClosePolicy,
) -> StateModel<T> {
    StateModel {
        value,
        epoch: 1nat,
        closed: false,
        wake_generation: 0nat,
        senders: 0nat,
        receivers: 0nat,
        initial_policy,
        close_policy,
    }
}

/// The model transition of publishing `value`: the slot is overwritten, the
/// epoch advances by one, and all current waiters are woken.
pub open spec fn spec_publish<T>(m: StateModel<T>, value: T) -> StateModel<T> {
    StateModel { value, epoch: m.epoch + 1, wake_generation: m.wake_generation + 1, ..m }
}

/// The model transition of closing: the closed flag is set (one-way) and
/// all current waiters are woken so they can terminate instead of hanging.
pub open spec fn spec_close<T>(m: StateModel<T>) -> StateModel<T> {
    StateModel { closed: true, wake_generation: m.wake_generation + 1, ..m }
}

/// The model transition of releasing a sending handle: the count drops by
/// one, and exhaustion of the sending side always closes the channel.
pub open spec fn spec_release_sender<T>(m: StateModel<T>) -> StateModel<T>
    recommends
        m.senders >= 1,
{
    let dec = StateModel { senders: (m.senders - 1) as nat, ..m };
    if dec.senders == 0 {
        spec_close(dec)
    } else {
        dec
    }
}

/// The model transition of releasing a receiving handle: the count drops by
/// one, and exhaustion closes the channel only under the symmetric policy.
pub open spec fn spec_release_receiver<T>(m: StateModel<T>) -> StateModel<T>
    recommends
        m.receivers >= 1,
{
    let dec = StateModel { receivers: (m.receivers - 1) as nat, ..m };
    if dec.receivers == 0 && dec.close_policy == ClosePolicy::EitherSide {
        spec_close(dec)
    } else {
        dec
    }
}

/// The epoch baseline a receiving handle created against state `m` starts
/// from: one behind the current epoch when the stored value is to be
/// delivered once, the current epoch when it is to be skipped.
pub open spec fn spec_baseline<T>(m: StateModel<T>) -> nat
    recommends
        spec_wf(m),
{
    match m.initial_policy {
        InitialPolicy::DeliverInitial => (m.epoch - 1) as nat,
        InitialPolicy::SkipInitial => m.epoch,
    }
}

/// What an observation from epoch baseline `since` finds in state `m`.
pub enum Observation<T> {
    /// An unseen value exists: its epoch and the value itself.
    Fresh(nat, T),
    /// No unseen value exists and none will ever arrive.
    ClosedNoMore,
    /// No unseen value yet; the observer must wait on a ticket drawn at the
    /// given wake generation and then re-check.
    Pending(nat),
}

/// The decision an observation makes, as a function of the state model and
/// the observer's last-seen epoch alone.
pub open spec fn spec_observe<T>(m: StateModel<T>, since: nat) -> Observation<T> {
    if m.epoch > since {
        Observation::Fresh(m.epoch, m.value)
    } else if m.closed {
        Observation::ClosedNoMore
    } else {
        Observation::Pending(m.wake_generation)
    }
}

/// The shared mutable cell of one channel instance. An embedding holds one
/// `State` per channel behind an exclusive lock; every transition below is
/// one critical section.
pub struct State<T> {
    value: T,
    epoch: usize,
    closed: bool,
    waker: WakeGroup,
    senders: usize,
    receivers: usize,
    initial_policy: InitialPolicy,
    close_policy: ClosePolicy,
}

impl<T> View for State<T> {
    type V = StateModel<T>;

    closed spec fn view(&self) -> StateModel<T> {
        StateModel {
            value: self.value,
            epoch: self.epoch as nat,
            closed: self.closed,
            wake_generation: self.waker@,
            senders: self.senders as nat,
            receivers: self.receivers as nat,
            initial_policy: self.initial_policy,
            close_policy: self.close_policy,
        }
    }
}

impl<T: Clone> State<T> {
    /// A fresh state holding `value` at epoch one, open, with no live
    /// handles registered yet.
    pub fn new(value: T, initial_policy: InitialPolicy, close_policy: ClosePolicy) -> (s: Self)
        ensures
            s@ == spec_new_state(value, initial_policy, close_policy),
    {
        State {
            value,
            epoch: 1,
            closed: false,
            waker: WakeGroup::new(),
            senders: 0,
            receivers: 0,
            initial_policy,
            close_policy,
        }
    }

    /// Publish a new value: overwrite the slot, advance the epoch and wake
    /// all waiters. Requires the channel to still be open for writing.
    pub fn set(&mut self, value: T)
        requires
            !old(self)@.closed,
            old(self)@.epoch < usize::MAX,
            old(self)@.wake_generation < usize::MAX,
        ensures
            final(self)@ == spec_publish(old(self)@, value),
    {
        self.value = value;
        self.epoch = self.epoch + 1;
        self.waker.notify_all();
    }

    /// Observe from epoch baseline `epoch`: an unseen value is returned
    /// with its epoch; otherwise a closed channel reports the end of the
    /// stream, and an open one hands out a wake ticket drawn in this same
    /// critical section, so that no publish or close between the check and
    /// the wait can be missed. The state itself is never changed.
    pub fn next(&mut self, epoch: usize) -> (r: Result<(usize, T), Option<WakeTicket>>)
        ensures
            *final(self) == *old(self),
            match spec_observe(old(self)@, epoch as nat) {
                Observation::Fresh(e, w) => r matches Ok(p) && p.0 as nat == e && cloned(w, p.1),
                Observation::ClosedNoMore => r matches Err(o) && o is None,
                Observation::Pending(g) => r matches Err(o) && o matches Some(t) && t@ == g,
            },
    {
        if self.epoch > epoch {
            let value = self.value.clone();
            Ok((self.epoch, value))
        } else if self.closed {
            Err(None)
        } else {
            Err(Some(self.waker.ticket()))
        }
    }

    /// Return a copy of the current value without consuming or advancing
    /// any observer's epoch.
    pub fn get(&self) -> (r: T)
        ensures
            cloned(self@.value, r),
    {
        self.value.clone()
    }

    /// Close the channel and wake all waiters so pending observations can
    /// re-check and terminate. Safe to call repeatedly: the flag is one-way.
    pub fn close(&mut self)
        requires
            old(self)@.wake_generation < usize::MAX,
        ensures
            final(self)@ == spec_close(old(self)@),
    {
        self.closed = true;
        self.waker.notify_all();
    }

    /// Record one more live sending handle.
    pub fn register_sender(&mut self)
        requires
            old(self)@.senders < usize::MAX,
        ensures
            final(self)@ == (StateModel { senders: old(self)@.senders + 1, ..old(self)@ }),
    {
        self.senders = self.senders + 1;
    }

    /// Record one more live receiving handle.
    pub fn register_receiver(&mut self)
        requires
            old(self)@.receivers < usize::MAX,
        ensures
            final(self)@ == (StateModel { receivers: old(self)@.receivers + 1, ..old(self)@ }),
    {
        self.receivers = self.receivers + 1;
    }

    /// Release one sending handle; the last one closes the channel and
    /// wakes all waiters, which is how receivers learn the producer is gone.
    pub fn release_sender(&mut self)
        requires
            old(self)@.senders >= 1,
            old(self)@.wake_generation < usize::MAX,
        ensures
            final(self)@ == spec_release_sender(old(self)@),
    {
        self.senders = self.senders - 1;
        if self.senders == 0 {
            self.close();
        }
    }

    /// Release one receiving handle; under the symmetric policy the last
    /// one closes the channel, so publishing into a channel nobody listens
    /// to fails instead of going unnoticed.
    pub fn release_receiver(&mut self)
        requires
            old(self)@.receivers >= 1,
            old(self)@.wake_generation < usize::MAX,
        ensures
            final(self)@ == spec_release_receiver(old(self)@),
    {
        self.receivers = self.receivers - 1;
        if self.receivers == 0 && matches!(self.close_policy, ClosePolicy::EitherSide) {
            self.close();
        }
    }

    /// Read the current epoch.
    pub fn epoch(&self) -> (e: usize)
        ensures
            e as nat == self@.epoch,
    {
        self.epoch
    }

    /// Read the closed flag.
    pub fn is_closed(&self) -> (b: bool)
        ensures
            b == self@.closed,
    {
        self.closed
    }

    /// Read the number of wake broadcasts performed so far.
    pub fn wake_generation(&self) -> (g: usize)
        ensures
            g as nat == self@.wake_generation,
    {
        self.waker.generation
    }

    /// Whether a wake broadcast strictly later than `t` has occurred; a
    /// waiter suspended on `t` retries its observation once this holds.
    pub fn is_signaled(&self, t: WakeTicket) -> (r: bool)
        ensures
            r == (self@.wake_generation > t@),
    {
        self.waker.is_signaled(t)
    }

    /// Read the channel's initial-value policy.
    pub fn initial_policy(&self) -> (p: InitialPolicy)
        ensures
            p == self@.initial_policy,
    {
        self.initial_policy
    }

    /// Read the channel's closing policy.
    pub fn close_policy(&self) -> (p: ClosePolicy)
        ensures
            p == self@.close_policy,
    {
        self.close_policy
    }

    /// Read the number of live sending handles.
    pub fn sender_count(&self) -> (n: usize)
        ensures
            n as nat == self@.senders,
    {
        self.senders
    }

    /// Read the number of live receiving handles.
    pub fn receiver_count(&self) -> (n: usize)
        ensures
            n as nat == self@.receivers,
    {
        self.receivers
    }
}

impl<T: Clone + PartialEq> State<T> {
    /// Publish `value` only if it differs from the stored value, so waiters
    /// are not woken for unchanged state. For payload types whose equality
    /// obeys its specification the outcome is exact; for any other the
    /// state either stays as it was or carries the published value.
    pub fn set_if(&mut self, value: T)
        requires
            !old(self)@.closed,
            old(self)@.epoch < usize::MAX,
            old(self)@.wake_generation < usize::MAX,
        ensures
            final(self)@ == old(self)@ || final(self)@ == spec_publish(old(self)@, value),
            T::obeys_eq_spec() ==> final(self)@ == (if old(self)@.value.eq_spec(&value) {
                old(self)@
            } else {
                spec_publish(old(self)@, value)
            }),
    {
        if self.value == value {
            return;
        }
        self.set(value);
    }
}

} // verus!
