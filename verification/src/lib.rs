//! A minimal concurrent byte-echo service, verified.
//!
//! The crate separates the service's logic from its transport. The
//! [`handler`] module holds the per-connection state machine that decides,
//! for each read outcome, what to write back, and carries the proof that a
//! connection's echoed bytes are exactly the bytes it received, in order.
//! The [`listener`] module holds the accept-loop decisions: every successful
//! accept is handed to a fresh handler, and any accept failure is fatal to
//! the whole service. The [`chunks`] module gives the byte-sequence model
//! that both build on. An unverified binary drives real sockets through
//! these step functions.

pub mod chunks;
pub mod handler;
pub mod listener;
