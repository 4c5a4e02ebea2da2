//! A verified counter state machine: a single persisted record holding a
//! signed counter, the owning identity, and a tally of successful resets.
//!
//! The library is the full state-transition logic: initialization, the
//! increment/decrement/reset updates (with two's-complement wrapping
//! arithmetic), the owner-only authorization rule for reset, and the two
//! read-only queries. Persistence is modeled by [`state::Storage`], a
//! single-record in-memory store with the same load/save contract the host's
//! key-value storage provides; host bindings (wire-format serialization,
//! entry-point registration, version metadata) live outside the library.

pub mod contract;
pub mod error;
pub mod execute;
pub mod lemmas;
pub mod msg;
pub mod query;
pub mod response;
pub mod state;

pub use crate::error::ContractError;
