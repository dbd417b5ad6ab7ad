//! Serialized access to a single SQLite connection that lives on a worker
//! thread of its own.
//!
//! The worker owns a slot that holds the connection while it is open and is
//! empty once it has been closed. Every operation reaches the connection
//! through that slot, one at a time and in the order submitted; this crate
//! holds what each operation does to the slot and what it reports.

pub use rusqlite;

pub mod error;
pub mod sqlite;
pub mod slot;

pub use error::{AlreadyClosed, Error};
pub use slot::{call_slot, close_slot, finalize_slot, settle_close};
