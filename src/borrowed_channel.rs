use vstd::prelude::*;

use crate::error::ProtocolError;
use crate::handoff::{deposited, fresh, withdrawn, Handoff, HandoffView};

verus! {

/// A reusable channel. Each `split` starts a new round and issues one
/// `Sender` and one `Receiver` for it; a handle acts only on the channel and
/// round it was issued for, and is consumed by its one operation.
pub struct Channel<T> {
    core: Handoff<T>,
    round: Ghost<nat>,
}

/// The right to send once in one round of one channel.
pub struct Sender<T> {
    round: Ghost<nat>,
    _message: std::marker::PhantomData<T>,
}

/// The right to receive once in one round of one channel.
pub struct Receiver<T> {
    round: Ghost<nat>,
    _message: std::marker::PhantomData<T>,
}

impl<T> View for Channel<T> {
    type V = HandoffView<T>;

    closed spec fn view(&self) -> HandoffView<T> {
        self.core@
    }
}

impl<T> Channel<T> {
    /// Which round of which channel this is. A new channel's round is not
    /// known to its callers, so a handle of one channel never matches another.
    pub closed spec fn round(&self) -> nat {
        self.round@
    }

    pub fn new() -> (c: Self)
        ensures
            c@ == fresh::<T>(),
    {
        Channel { core: Handoff::new(), round: Ghost(0) }
    }

    /// Resets the channel, dropping any unread value of the last round, and
    /// issues the handles of a new round. Handles of earlier rounds no longer
    /// match it.
    pub fn split(&mut self) -> (r: (Sender<T>, Receiver<T>))
        ensures
            final(self)@ == fresh::<T>(),
            final(self).round() == old(self).round() + 1,
            r.0.round() == final(self).round(),
            r.1.round() == final(self).round(),
    {
        self.core.reset();
        self.round = Ghost(self.round@ + 1);
        (
            Sender { round: Ghost(self.round@), _message: std::marker::PhantomData },
            Receiver { round: Ghost(self.round@), _message: std::marker::PhantomData },
        )
    }
}

impl<T> Sender<T> {
    pub closed spec fn round(&self) -> nat {
        self.round@
    }

    /// Hands `message` over. Its round's slot is still empty: the one
    /// sender of the round is consumed here.
    pub fn send(self, channel: &mut Channel<T>, message: T)
        requires
            self.round() == old(channel).round(),
            old(channel)@.slot is Empty,
        ensures
            final(channel)@ == deposited(message),
            final(channel).round() == old(channel).round(),
    {
        channel.core.put(message);
    }
}

impl<T> Receiver<T> {
    pub closed spec fn round(&self) -> nat {
        self.round@
    }

    /// Reports whether a message is waiting.
    pub fn is_ready(&self, channel: &Channel<T>) -> (r: bool)
        ensures
            r == channel@.ready,
    {
        channel.core.is_ready()
    }

    /// Takes the message out; before the send it answers `NothingSent`.
    pub fn receive(self, channel: &mut Channel<T>) -> (r: Result<T, ProtocolError>)
        requires
            self.round() == old(channel).round(),
            old(channel)@.wf(),
        ensures
            (final(channel)@, r) == withdrawn(old(channel)@),
            final(channel).round() == old(channel).round(),
    {
        channel.core.take()
    }
}

/// A round that a split starts behaves as a new channel: whatever the earlier
/// round left behind cannot be received, the flag is down until the send and
/// up after it, and a message sent in the round comes back unchanged, once.
/// Between send and receive the slot holds exactly that message, which is
/// what dropping the channel then drops.
pub proof fn lemma_new_round_is_fresh<T>(m: T)
    ensures
        fresh::<T>().wf(),
        !fresh::<T>().ready,
        fresh::<T>().slot.value() == None::<T>,
        deposited(m).ready,
        deposited(m).slot.value() == Some(m),
        withdrawn(deposited(m)).0.slot.value() == None::<T>,
        withdrawn(fresh::<T>()) == (fresh::<T>(), Err::<T, ProtocolError>(
            ProtocolError::NothingSent,
        )),
        withdrawn(deposited(m)).1 == Ok::<T, ProtocolError>(m),
        withdrawn(withdrawn(deposited(m)).0).1 == Err::<T, ProtocolError>(
            ProtocolError::NothingSent,
        ),
{
}

} // verus!
