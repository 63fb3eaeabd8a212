//! A verified bridge between a callback-driven negotiation engine and the
//! code around it: cooperative driving of a session over a non-blocking
//! transport, hand-off of private-key operations to an external signer, and
//! reuse of sessions through a bounded pool.
//!
//! The engine itself is not part of this crate. A [`connection::Connection`]
//! is the record of one session as the bridge sees it, and whatever only the
//! engine can decide reaches the crate as a plain value or as the result of a
//! closure that the caller supplies.

pub mod buffer;
pub mod callbacks;
pub mod config;
pub mod connection;
pub mod enums;
pub mod error;
pub mod pool;
pub mod stream;
mod sync;
mod sys;
