use vstd::prelude::*;

use crate::error::ProtocolError;
use crate::slot::Slot;

verus! {

/// The abstract state of a handoff: the slot and the ready flag.
pub struct HandoffView<T> {
    pub slot: Slot<T>,
    pub ready: bool,
}

impl<T> HandoffView<T> {
    /// The flag is raised exactly while the slot holds an unread value.
    pub open spec fn wf(self) -> bool {
        self.ready <==> self.slot is Written
    }
}

/// The state of a handoff that has not been used yet.
pub open spec fn fresh<T>() -> HandoffView<T> {
    HandoffView { slot: Slot::Empty, ready: false }
}

/// The state after `m` is deposited: the slot holds `m` and the flag is up.
pub open spec fn deposited<T>(m: T) -> HandoffView<T> {
    HandoffView { slot: Slot::Written(m), ready: true }
}

/// The state after a withdrawal from `s`, and what the withdrawal returns.
/// With the flag up the value comes out and the slot is left `Consumed`;
/// otherwise nothing changes and the withdrawal fails.
pub open spec fn withdrawn<T>(s: HandoffView<T>) -> (HandoffView<T>, Result<T, ProtocolError>) {
    match s.slot {
        Slot::Written(v) => if s.ready {
            (HandoffView { slot: Slot::Consumed, ready: false }, Ok(v))
        } else {
            (s, Err(ProtocolError::NothingSent))
        },
        _ => (s, Err(ProtocolError::NothingSent)),
    }
}

/// One slot and its ready flag: the storage every channel front end uses.
pub struct Handoff<T> {
    message: Slot<T>,
    ready: bool,
}

impl<T> View for Handoff<T> {
    type V = HandoffView<T>;

    closed spec fn view(&self) -> HandoffView<T> {
        HandoffView { slot: self.message, ready: self.ready }
    }
}

impl<T> Handoff<T> {
    pub fn new() -> (h: Self)
        ensures
            h@ == fresh::<T>(),
    {
        Handoff { message: Slot::new(), ready: false }
    }

    /// Reports whether a value is waiting.
    pub fn is_ready(&self) -> (r: bool)
        ensures
            r == self@.ready,
    {
        self.ready
    }

    /// Writes `m` into the empty slot, then raises the flag.
    pub fn put(&mut self, m: T)
        requires
            old(self)@.slot is Empty,
        ensures
            final(self)@ == deposited(m),
    {
        self.message.write(m);
        self.ready = true;
    }

    /// Lowers the flag and, if it was up, moves the value out.
    pub fn take(&mut self) -> (r: Result<T, ProtocolError>)
        requires
            old(self)@.wf(),
        ensures
            (final(self)@, r) == withdrawn(old(self)@),
    {
        let was_ready = self.ready;
        self.ready = false;
        if !was_ready {
            return Err(ProtocolError::NothingSent);
        }
        Ok(self.message.read())
    }

    /// Returns the handoff to its unused state, dropping any unread value.
    pub fn reset(&mut self)
        ensures
            final(self)@ == fresh::<T>(),
    {
        self.message = Slot::new();
        self.ready = false;
    }
}

} // verus!
