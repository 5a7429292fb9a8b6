//! Event-driven deployment reconciler.
//!
//! A batch of queue messages carries storage notifications about newly
//! uploaded artifacts. Each notification names the function whose code has to
//! be replaced. The library decodes the two layers of the batch, derives one
//! update command per change record, and decides how the update is retried.
//! Talking to the remote API, sleeping and logging are left to the caller.

pub mod batch;
pub mod command;
pub mod envelope;
pub mod retry;
