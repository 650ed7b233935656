//! An in-memory, append-only record log.
//!
//! Records are stored in the order in which they are appended and are
//! addressed by their zero-based position, the offset. A record, once stored,
//! is never changed, moved or removed.
//!
//! - [`log`] holds the log itself, for one owner: `append` and `read`, with
//!   contracts that say exactly what each returns.
//! - [`model`] holds the mathematics behind those contracts and the proofs of
//!   what holds of every run of appends and reads.
//! - [`shared`] puts a log behind a reader/writer lock, for many threads.
//! - [`adapter`] decides what a server in front of a shared log answers.
//! - [`text`] builds the message of the lookup error.

pub mod adapter;
pub mod log;
pub mod model;
pub mod shared;
pub mod text;
