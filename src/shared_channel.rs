use vstd::prelude::*;

pub use crate::borrowed_channel::{Channel, Receiver, Sender};
use crate::handoff::fresh;

verus! {

/// Creates a channel together with its one `Sender` and one `Receiver`. The
/// three values can be moved on separately; the channel storage lives as long
/// as its owner keeps it.
pub fn channel<T>() -> (r: (Channel<T>, Sender<T>, Receiver<T>))
    ensures
        r.0@ == fresh::<T>(),
        r.1.round() == r.0.round(),
        r.2.round() == r.0.round(),
{
    let mut c = Channel::new();
    let (s, r) = c.split();
    (c, s, r)
}

} // verus!
