//! An actor bridge in front of a synchronous key-value store.
//!
//! One worker owns the store. Callers reach it only through requests on a
//! bounded queue, and each request is answered once on a reply channel of its
//! own. This crate holds the decisions of both ends of that exchange: what the
//! worker asks of the store for each request and what it replies, which
//! snapshot handles are live, and how a caller reads the reply it was given.
//! The queue, the reply channels and the store itself belong to the embedding
//! program.

pub mod client;
pub mod laws;
pub mod protocol;
pub mod registry;
pub mod status;
pub mod worker;
