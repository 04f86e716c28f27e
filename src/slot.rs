use vstd::prelude::*;

verus! {

/// Storage for at most one value, with its lifecycle made explicit.
///
/// A slot starts `Empty`, is `Written` once and is read out once, which
/// leaves it `Consumed`. Dropping a `Written` slot drops its value; dropping
/// an `Empty` or `Consumed` one drops nothing.
pub enum Slot<T> {
    Empty,
    Written(T),
    Consumed,
}

impl<T> Slot<T> {
    /// The value held, if the slot is `Written`.
    pub open spec fn value(self) -> Option<T> {
        match self {
            Slot::Written(v) => Some(v),
            _ => None,
        }
    }

    pub fn new() -> (s: Self)
        ensures
            s is Empty,
    {
        Slot::Empty
    }

    pub fn is_written(&self) -> (r: bool)
        ensures
            r == (*self is Written),
    {
        match self {
            Slot::Written(_) => true,
            _ => false,
        }
    }

    /// Stores `value` in an empty slot.
    pub fn write(&mut self, value: T)
        requires
            *old(self) is Empty,
        ensures
            *final(self) == Slot::Written(value),
    {
        *self = Slot::Written(value);
    }

    /// Moves the value out of a written slot, leaving it `Consumed`.
    pub fn read(&mut self) -> (r: T)
        requires
            *old(self) is Written,
        ensures
            old(self).value() == Some(r),
            *final(self) is Consumed,
    {
        let mut s = Slot::Consumed;
        core::mem::swap(self, &mut s);
        match s {
            Slot::Written(v) => v,
            _ => vstd::pervasive::unreached(),
        }
    }
}

} // verus!
