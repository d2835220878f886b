//! Concrete scenarios for each of the channel's governing laws, plus the
//! edge cases of the policies, the wake primitive and the handle counts.

use baton::{channel, ClosePolicy, InitialPolicy, State, WakeGroup};

#[test]
fn fresh_value_delivery() {
    let (mut st, send, mut recv) = channel(
        5u64,
        InitialPolicy::DeliverInitial,
        ClosePolicy::SenderOnly,
    );
    assert_eq!(recv.get(&st), 5);
    assert_eq!(recv.next(&mut st).unwrap().unwrap(), 5);
    assert_eq!(recv.get(&st), 5);
    drop(send);
}

#[test]
fn skip_initial_blocks_first() {
    let (mut st, _send, mut recv) = channel(
        5u64,
        InitialPolicy::SkipInitial,
        ClosePolicy::SenderOnly,
    );
    assert!(recv.next(&mut st).is_err());
}

#[test]
fn coalescing() {
    let (mut st, mut send, mut recv) = channel(
        0u64,
        InitialPolicy::SkipInitial,
        ClosePolicy::SenderOnly,
    );
    assert!(send.set(&mut st, 1).is_ok());
    assert!(send.set(&mut st, 2).is_ok());
    assert!(send.set(&mut st, 3).is_ok());
    // Only the final value is observable; 1 and 2 are gone.
    assert_eq!(recv.next(&mut st).unwrap().unwrap(), 3);
    assert!(recv.next(&mut st).is_err());
}

#[test]
fn blocking_until_publish() {
    let (mut st, mut send, mut recv) = channel(
        0u64,
        InitialPolicy::SkipInitial,
        ClosePolicy::SenderOnly,
    );
    // Nothing unseen: the observation hands out an unsignaled ticket.
    let ticket = recv.next(&mut st).unwrap_err();
    assert!(!st.is_signaled(ticket));
    // A publish signals the very ticket, and the retry finds the value.
    assert!(send.set(&mut st, 8).is_ok());
    assert!(st.is_signaled(ticket));
    assert_eq!(recv.next(&mut st).unwrap().unwrap(), 8);
    // Waiting again, a close also signals the ticket; the retry terminates.
    let ticket2 = recv.next(&mut st).unwrap_err();
    assert!(!st.is_signaled(ticket2));
    send.release(&mut st);
    assert!(st.is_signaled(ticket2));
    assert!(recv.next(&mut st).unwrap().is_none());
}

#[test]
fn no_stale_wakeup() {
    let mut group = WakeGroup::new();
    let before = group.ticket();
    group.notify_all();
    // A ticket drawn after the broadcast is unaffected by it.
    let after = group.ticket();
    assert!(group.is_signaled(before));
    assert!(!group.is_signaled(after));
}

#[test]
fn closure_delivers_pending_then_terminates() {
    let (mut st, mut send, mut recv) = channel(
        String::from("hi"),
        InitialPolicy::SkipInitial,
        ClosePolicy::SenderOnly,
    );
    assert!(send.set(&mut st, String::from("goodbye")).is_ok());
    send.release(&mut st);
    // The pending update survives the producer's disappearance.
    assert_eq!(recv.next(&mut st).unwrap().unwrap(), "goodbye");
    // From now on the stream has ended, on this handle and on any clone.
    let mut cloned_recv = recv.duplicate(&mut st);
    assert!(recv.next(&mut st).unwrap().is_none());
    assert!(cloned_recv.next(&mut st).unwrap().is_none());
}

#[test]
fn independent_receiver_epochs() {
    let (mut st, mut send, mut first) = channel(
        0u64,
        InitialPolicy::SkipInitial,
        ClosePolicy::SenderOnly,
    );
    assert!(send.set(&mut st, 10).is_ok());
    let mut second = first.duplicate(&mut st);
    // The first handle consumes the value; the second is not affected.
    assert_eq!(first.next(&mut st).unwrap().unwrap(), 10);
    assert!(first.next(&mut st).is_err());
    assert_eq!(second.next(&mut st).unwrap().unwrap(), 10);
    assert!(second.next(&mut st).is_err());
}

#[test]
fn publish_after_close_rejected() {
    let (mut st, mut send, recv) = channel(
        0u64,
        InitialPolicy::SkipInitial,
        ClosePolicy::EitherSide,
    );
    recv.release(&mut st);
    // The rejected value comes back unchanged.
    assert_eq!(send.set(&mut st, 9).unwrap_err(), 9);
    assert_eq!(send.set_if(&mut st, 11).unwrap_err(), 11);
}

#[test]
fn sender_only_policy_ignores_receiver_release() {
    let (mut st, mut send, recv) = channel(
        0u64,
        InitialPolicy::SkipInitial,
        ClosePolicy::SenderOnly,
    );
    recv.release(&mut st);
    // Under the sender-only policy the channel stays open for writing.
    assert!(send.set(&mut st, 9).is_ok());
    assert_eq!(send.get(&st), 9);
}

#[test]
fn idempotent_close() {
    let (mut st, mut send, mut recv) = channel(
        1u64,
        InitialPolicy::SkipInitial,
        ClosePolicy::SenderOnly,
    );
    let ticket = recv.next(&mut st).unwrap_err();
    let second_send = send.duplicate(&mut st);
    // Releasing one of two sending handles does not close the channel.
    send.release(&mut st);
    assert!(!st.is_closed());
    assert!(recv.next(&mut st).is_err());
    // Releasing the last one closes it; closing again changes nothing
    // observable, and the repeated wake broadcast is harmless.
    second_send.release(&mut st);
    assert!(st.is_closed());
    st.close();
    assert!(st.is_closed());
    assert!(st.is_signaled(ticket));
    assert_eq!(st.get(), 1);
    assert!(recv.next(&mut st).unwrap().is_none());
}

#[test]
fn set_if_skips_equal_values() {
    let (mut st, mut send, mut recv) = channel(
        5u64,
        InitialPolicy::SkipInitial,
        ClosePolicy::SenderOnly,
    );
    // Publishing the stored value again wakes nobody and stores nothing new.
    let ticket = recv.next(&mut st).unwrap_err();
    assert!(send.set_if(&mut st, 5).is_ok());
    assert!(!st.is_signaled(ticket));
    assert!(recv.next(&mut st).is_err());
    // A different value goes through as a plain publish.
    assert!(send.set_if(&mut st, 6).is_ok());
    assert!(st.is_signaled(ticket));
    assert_eq!(recv.next(&mut st).unwrap().unwrap(), 6);
}

#[test]
fn peeks_do_not_consume() {
    let (mut st, mut send, mut recv) = channel(
        3u64,
        InitialPolicy::DeliverInitial,
        ClosePolicy::SenderOnly,
    );
    assert_eq!(st.get(), 3);
    assert_eq!(send.get(&st), 3);
    assert_eq!(recv.get(&st), 3);
    // Peeking did not advance the receiver: the initial value still comes.
    assert_eq!(recv.next(&mut st).unwrap().unwrap(), 3);
    assert!(send.set(&mut st, 4).is_ok());
    // Every peek reads the shared slot, so an unobserved publish shows at
    // once, on either side —
    assert_eq!(recv.get(&st), 4);
    assert_eq!(send.get(&st), 4);
    // — and peeking does not consume it: the observation still delivers it,
    // exactly once.
    assert_eq!(recv.next(&mut st).unwrap().unwrap(), 4);
    assert!(recv.next(&mut st).is_err());
}

#[test]
fn late_receivers_follow_policy() {
    let (mut st, mut send, _recv) = channel(
        7u64,
        InitialPolicy::DeliverInitial,
        ClosePolicy::SenderOnly,
    );
    // Under deliver-initial, a later handle sees the current value once.
    let mut late = send.recv(&mut st);
    assert_eq!(late.next(&mut st).unwrap().unwrap(), 7);
    assert!(late.next(&mut st).is_err());

    let (mut st2, send2, _recv2) = channel(
        7u64,
        InitialPolicy::SkipInitial,
        ClosePolicy::SenderOnly,
    );
    // Under skip-initial, a later handle starts with nothing unseen.
    let mut late2 = send2.recv(&mut st2);
    assert!(late2.next(&mut st2).is_err());
}

#[test]
fn handle_counts_track_registration() {
    let (mut st, send, recv) = channel(
        0u64,
        InitialPolicy::SkipInitial,
        ClosePolicy::EitherSide,
    );
    assert_eq!(st.sender_count(), 1);
    assert_eq!(st.receiver_count(), 1);
    let send2 = send.duplicate(&mut st);
    let recv2 = recv.duplicate(&mut st);
    assert_eq!(st.sender_count(), 2);
    assert_eq!(st.receiver_count(), 2);
    recv.release(&mut st);
    assert!(!st.is_closed());
    recv2.release(&mut st);
    // The symmetric policy closes on the last receiver's release.
    assert!(st.is_closed());
    send.release(&mut st);
    send2.release(&mut st);
    assert_eq!(st.sender_count(), 0);
    assert_eq!(st.receiver_count(), 0);
}

#[test]
fn state_transitions_directly() {
    let mut st: State<u64> = State::new(
        2,
        InitialPolicy::DeliverInitial,
        ClosePolicy::SenderOnly,
    );
    assert_eq!(st.epoch(), 1);
    assert_eq!(st.wake_generation(), 0);
    // An observation from before the first epoch finds the initial value.
    let (epoch, value) = st.next(0).unwrap();
    assert_eq!((epoch, value), (1, 2));
    st.set(4);
    assert_eq!(st.epoch(), 2);
    assert_eq!(st.wake_generation(), 1);
    let (epoch, value) = st.next(1).unwrap();
    assert_eq!((epoch, value), (2, 4));
    // Nothing unseen from the current epoch: a ticket comes back.
    let pending = st.next(2).unwrap_err();
    assert!(pending.is_some());
    st.close();
    // Closed with nothing unseen: the stream has ended.
    assert!(st.next(2).unwrap_err().is_none());
}
