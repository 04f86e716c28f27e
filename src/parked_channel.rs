use vstd::prelude::*;

use crate::handoff::{deposited, fresh, withdrawn, Handoff, HandoffView};

verus! {

/// The abstract state of a channel with a directed wake: its handoff, and
/// whether a wake for the receiving side is pending.
pub struct ParkedView<T> {
    pub held: HandoffView<T>,
    pub wake: bool,
}

/// The state after the sender's send of `m`: the value is deposited, then
/// the receiving side is woken.
pub open spec fn sent<T>(s: ParkedView<T>, m: T) -> ParkedView<T> {
    ParkedView { held: deposited(m), wake: true }
}

/// The state after one receive attempt on `s`, and the value it obtained.
/// Without a waiting value nothing changes.
pub open spec fn attempted<T>(s: ParkedView<T>) -> (ParkedView<T>, Option<T>) {
    if s.held.ready {
        (ParkedView { held: withdrawn(s.held).0, wake: s.wake }, withdrawn(s.held).1.ok())
    } else {
        (s, None)
    }
}

/// The state after the receiving side consumes the pending wake, if any, and
/// whether there was one.
pub open spec fn woken<T>(s: ParkedView<T>) -> (ParkedView<T>, bool) {
    (ParkedView { held: s.held, wake: false }, s.wake)
}

/// The state after `k` wake checks, returned or spurious.
pub open spec fn woken_times<T>(s: ParkedView<T>, k: nat) -> ParkedView<T>
    decreases k,
{
    if k == 0 {
        s
    } else {
        woken_times(woken(s).0, (k - 1) as nat)
    }
}

/// A reusable channel whose sender wakes the one receiving side that was
/// fixed when the pair was issued. The receiver checks the flag, waits for a
/// wake while it is down, and checks again after every wake.
pub struct Channel<T> {
    core: Handoff<T>,
    wake: bool,
    round: Ghost<nat>,
}

/// The right to send once in one round, and to wake that round's receiver.
pub struct Sender<T> {
    round: Ghost<nat>,
    _message: std::marker::PhantomData<T>,
}

/// The right to receive once in one round.
pub struct Receiver<T> {
    round: Ghost<nat>,
    _message: std::marker::PhantomData<T>,
}

impl<T> View for Channel<T> {
    type V = ParkedView<T>;

    closed spec fn view(&self) -> ParkedView<T> {
        ParkedView { held: self.core@, wake: self.wake }
    }
}

impl<T> Channel<T> {
    /// Which round of which channel this is; callers never learn it.
    pub closed spec fn round(&self) -> nat {
        self.round@
    }

    pub fn new() -> (c: Self)
        ensures
            c@ == (ParkedView { held: fresh::<T>(), wake: false }),
    {
        Channel { core: Handoff::new(), wake: false, round: Ghost(0) }
    }

    /// Resets the channel and issues the handles of a new round.
    pub fn split(&mut self) -> (r: (Sender<T>, Receiver<T>))
        ensures
            final(self)@ == (ParkedView { held: fresh::<T>(), wake: false }),
            final(self).round() == old(self).round() + 1,
            r.0.round() == final(self).round(),
            r.1.round() == final(self).round(),
    {
        self.core.reset();
        self.wake = false;
        self.round = Ghost(self.round@ + 1);
        (
            Sender { round: Ghost(self.round@), _message: std::marker::PhantomData },
            Receiver { round: Ghost(self.round@), _message: std::marker::PhantomData },
        )
    }
}

impl<T> Sender<T> {
    pub closed spec fn round(&self) -> nat {
        self.round@
    }

    /// Hands `message` over, raises the flag, then wakes the receiving side.
    pub fn send(self, channel: &mut Channel<T>, message: T)
        requires
            self.round() == old(channel).round(),
            old(channel)@.held.slot is Empty,
        ensures
            final(channel)@ == sent(old(channel)@, message),
            final(channel).round() == old(channel).round(),
    {
        channel.core.put(message);
        channel.wake = true;
    }
}

impl<T> Receiver<T> {
    pub closed spec fn round(&self) -> nat {
        self.round@
    }

    /// Reports whether a message is waiting.
    pub fn is_ready(&self, channel: &Channel<T>) -> (r: bool)
        ensures
            r == channel@.held.ready,
    {
        channel.core.is_ready()
    }

    /// Takes the message if it is there. Otherwise the receiver comes back,
    /// to wait for a wake and try again; the channel is left as it was.
    pub fn receive(self, channel: &mut Channel<T>) -> (r: Result<T, Receiver<T>>)
        requires
            self.round() == old(channel).round(),
            old(channel)@.held.wf(),
        ensures
            final(channel)@ == attempted(old(channel)@).0,
            final(channel).round() == old(channel).round(),
            match r {
                Ok(v) => attempted(old(channel)@).1 == Some(v),
                Err(back) => attempted(old(channel)@).1 is None && back.round() == self.round(),
            },
    {
        if !channel.core.is_ready() {
            return Err(self);
        }
        match channel.core.take() {
            Ok(v) => Ok(v),
            Err(_) => Err(self),
        }
    }

    /// Consumes the pending wake. `true`: a wake came, and a wait returns at
    /// once; `false`: the receiving side must wait for the sender's wake.
    pub fn take_wake(&self, channel: &mut Channel<T>) -> (woke: bool)
        requires
            self.round() == old(channel).round(),
        ensures
            (final(channel)@, woke) == woken(old(channel)@),
            final(channel).round() == old(channel).round(),
    {
        let woke = channel.wake;
        channel.wake = false;
        woke
    }
}

/// Wake checks leave the handoff alone.
proof fn lemma_woken_keeps_held<T>(s: ParkedView<T>, k: nat)
    ensures
        woken_times(s, k).held == s.held,
    decreases k,
{
    if k > 0 {
        lemma_woken_keeps_held(woken(s).0, (k - 1) as nat);
    }
}

/// No wake is lost. A receive attempt before the send obtains nothing and
/// changes nothing; the send leaves a wake pending, so a receiving side that
/// waits, before or after the send, is let go; and however many wake checks
/// the receiving side makes after the send, its next attempt obtains the value.
pub proof fn lemma_no_lost_wakeup<T>(s: ParkedView<T>, m: T, k: nat)
    requires
        s.held == fresh::<T>(),
    ensures
        attempted(s) == (s, None::<T>),
        woken(sent(s, m)).1,
        attempted(woken_times(sent(s, m), k)).1 == Some(m),
{
    lemma_woken_keeps_held(sent(s, m), k);
}

} // verus!
