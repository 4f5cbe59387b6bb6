//! A registry of non-fungible tokens: who owns each token, who may move it,
//! when the public may mint, and a write-once index of content digests.
//!
//! The registry is one [`ledger::State`] value. Every operation takes the
//! calling identity as an argument, checks before it changes anything, and
//! either applies all of its effects or leaves the state as it was.

pub mod identity;
pub mod digest;
pub mod uri;
pub mod clock;
pub mod metadata;
pub mod operators;
pub mod hash_index;
pub mod mint_window;
pub mod model;
pub mod ledger;
pub mod laws;
