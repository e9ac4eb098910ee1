//! Authentication core: credential hashing, the session lifecycle state
//! machine, and the orchestration rules that tie credential verification,
//! session creation and renewal, and collision-safe identifier generation
//! together.
//!
//! The persistence engine is an external keyed store; this crate holds only
//! the decision logic. Callers fetch records from the store, hand them to the
//! functions here as plain values, and persist whatever comes back.

pub mod errors;
pub mod models;
pub mod store;
pub mod hasher;
pub mod sessions;
pub mod idgen;
pub mod credentials;
