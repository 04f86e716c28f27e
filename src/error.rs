use vstd::prelude::*;

verus! {

/// A misuse of the one-shot protocol. Neither is transient: retrying the
/// same call on the same channel gives the same error.
#[derive(Debug, Clone, Copy, PartialEq, Eq, Structural)]
pub enum ProtocolError {
    /// A second `send` on a channel that already took a message.
    AlreadySent,
    /// A `receive` on a channel that holds no message.
    NothingSent,
}

} // verus!
