//! An event-sourced bank account engine.
//!
//! The durable state of an account is never stored directly: it is derived by
//! replaying the ordered sequence of immutable domain events recorded for that
//! account. This crate provides the event model, the aggregate state machine
//! that validates commands and emits events, an append-only event store with a
//! per-stream optimistic-concurrency check, and the repository and command
//! handlers that tie them together.

use vstd::prelude::*;

mod clock;
pub mod command;
pub mod error;
pub mod event;
pub mod event_store;
pub mod handler;
pub mod model;
pub mod repository;

verus! {

/// Identity of one account stream: an opaque unsigned integer.
pub type BankAccountId = u64;

/// Identity of the customer who owns an account.
pub type CustomerId = u64;

/// A moment in time, as whole seconds since the Unix epoch.
pub type Timestamp = i64;

/// Marker for types that identify an aggregate stream.
pub trait Id {}

impl Id for u64 {}

} // verus!
