//! Verified core of a Postgres-backed gist store.
//!
//! The queries themselves run against a `sqlx` connection pool; this crate holds
//! everything those queries' results go through before they reach a caller: the
//! model types, the mapping of driver errors onto the store's own error type, the
//! conversion of raw view rows into gists and comments, and the decision that each
//! store operation takes on the outcome of its query.

pub mod errors;
pub mod model;
pub mod outcome;
pub mod rows;
pub mod text;
