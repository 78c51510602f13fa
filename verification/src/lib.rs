//! Incrementally builds a collaboration graph of musical artists.
//!
//! The library holds the verified core of a catalog crawler: the upsert
//! compiler that turns one artist's discography into an ordered sequence of
//! idempotent graph-merge statements, the frontier bookkeeping that decides
//! which artists the next expansion round visits, and the apply-session state
//! machine that applies compiled operations one transaction at a time with
//! partial-failure tolerance.

pub mod catalog;
pub mod compiler;
pub mod config;
pub mod escape;
pub mod frontier;
pub mod graph_model;
pub mod queries;
pub mod render;
pub mod session;
mod ext;

pub use escape::escape;
