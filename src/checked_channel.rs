use vstd::prelude::*;

use crate::error::ProtocolError;
use crate::handoff::{deposited, fresh, withdrawn, Handoff, HandoffView};

verus! {

/// The abstract state of a checked channel: whether a send has claimed it,
/// and its handoff.
pub struct ChannelView<T> {
    pub claimed: bool,
    pub held: HandoffView<T>,
}

impl<T> ChannelView<T> {
    /// Before the claim the slot is empty; after it, it is not.
    pub open spec fn wf(self) -> bool {
        &&& self.held.wf()
        &&& self.claimed <==> !(self.held.slot is Empty)
    }
}

/// The state of a new channel.
pub open spec fn initial<T>() -> ChannelView<T> {
    ChannelView { claimed: false, held: fresh() }
}

/// The state after `send(m)` on `s`, and what `send` returns: the first send
/// claims the channel and deposits `m`; any later one changes nothing and
/// fails.
pub open spec fn sent<T>(s: ChannelView<T>, m: T) -> (ChannelView<T>, Result<(), ProtocolError>) {
    if s.claimed {
        (s, Err(ProtocolError::AlreadySent))
    } else {
        (ChannelView { claimed: true, held: deposited(m) }, Ok(()))
    }
}

/// The state after `receive` on `s`, and what `receive` returns.
pub open spec fn received<T>(s: ChannelView<T>) -> (ChannelView<T>, Result<T, ProtocolError>) {
    (ChannelView { claimed: s.claimed, held: withdrawn(s.held).0 }, withdrawn(s.held).1)
}

/// A one-shot channel that checks at run time that it is sent to once and
/// received from only after the send.
pub struct Channel<T> {
    core: Handoff<T>,
    in_use: bool,
}

impl<T> View for Channel<T> {
    type V = ChannelView<T>;

    closed spec fn view(&self) -> ChannelView<T> {
        ChannelView { claimed: self.in_use, held: self.core@ }
    }
}

impl<T> Channel<T> {
    pub fn new() -> (c: Self)
        ensures
            c@ == initial::<T>(),
            c@.wf(),
    {
        Channel { core: Handoff::new(), in_use: false }
    }

    /// Claims the channel and hands `message` over. A channel that was
    /// claimed before keeps its first message and answers `AlreadySent`.
    pub fn send(&mut self, message: T) -> (r: Result<(), ProtocolError>)
        requires
            old(self)@.wf(),
        ensures
            (final(self)@, r) == sent(old(self)@, message),
            final(self)@.wf(),
    {
        if self.in_use {
            return Err(ProtocolError::AlreadySent);
        }
        self.in_use = true;
        self.core.put(message);
        Ok(())
    }

    /// Reports whether a message is waiting. This only peeks: it neither
    /// takes the message nor claims anything.
    pub fn is_ready(&self) -> (r: bool)
        ensures
            r == self@.held.ready,
    {
        self.core.is_ready()
    }

    /// Takes the message out. Without a waiting message it answers
    /// `NothingSent` and changes nothing.
    pub fn receive(&mut self) -> (r: Result<T, ProtocolError>)
        requires
            old(self)@.wf(),
        ensures
            (final(self)@, r) == received(old(self)@),
            final(self)@.wf(),
    {
        self.core.take()
    }
}

/// Every channel state that `new`, `send` and `receive` reach is well formed.
pub proof fn lemma_wf_preserved<T>(s: ChannelView<T>, m: T)
    requires
        s.wf(),
    ensures
        initial::<T>().wf(),
        sent(s, m).0.wf(),
        received(s).0.wf(),
{
}

/// A message sent on a new channel is received unchanged, and only once:
/// the next receive fails.
pub proof fn lemma_round_trip<T>(m: T)
    ensures
        received(sent(initial(), m).0).1 == Ok::<T, ProtocolError>(m),
        received(received(sent(initial(), m).0).0).1 == Err::<T, ProtocolError>(
            ProtocolError::NothingSent,
        ),
{
}

/// A second send fails and never replaces the first message, whether or not
/// the first has been received yet.
pub proof fn lemma_second_send_rejected<T>(a: T, b: T)
    ensures
        sent(sent(initial(), a).0, b) == (sent(initial(), a).0, Err::<(), ProtocolError>(
            ProtocolError::AlreadySent,
        )),
        received(sent(sent(initial(), a).0, b).0).1 == Ok::<T, ProtocolError>(a),
        sent(received(sent(initial(), a).0).0, b).1 == Err::<(), ProtocolError>(
            ProtocolError::AlreadySent,
        ),
{
}

/// Receiving before any send fails, returns no value and leaves the channel
/// as it was.
pub proof fn lemma_receive_before_send<T>()
    ensures
        received(initial::<T>()) == (initial::<T>(), Err::<T, ProtocolError>(
            ProtocolError::NothingSent,
        )),
{
}

/// The flag is down before the send and up after it.
pub proof fn lemma_ready_after_send<T>(m: T)
    ensures
        !initial::<T>().held.ready,
        sent(initial(), m).0.held.ready,
{
}

/// What a channel drops when it is torn down: nothing before the send, the
/// message itself between send and receive, and nothing after the receive.
pub proof fn lemma_teardown_drops_unreceived<T>(m: T)
    ensures
        initial::<T>().held.slot.value() == None::<T>,
        sent(initial(), m).0.held.slot.value() == Some(m),
        received(sent(initial(), m).0).0.held.slot.value() == None::<T>,
{
}

} // verus!
