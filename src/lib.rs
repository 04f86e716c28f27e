//! A one-shot handoff channel: one value moves from one producer to one
//! consumer, exactly once.
//!
//! Storage is a tagged slot (`Empty`, `Written`, `Consumed`) paired with a
//! ready flag. Four front ends share that core:
//! - `checked_channel`: a single value with `send` / `receive` methods that
//!   detect a second send and a premature receive at run time;
//! - `shared_channel` and `borrowed_channel`: single-use `Sender` / `Receiver`
//!   handles that are consumed by their operation;
//! - `parked_channel`: the same handles plus a wake permit for a receiver
//!   that waits for the value.
pub mod error;
pub mod slot;
pub mod handoff;
pub mod checked_channel;
pub mod borrowed_channel;
pub mod shared_channel;
pub mod parked_channel;
