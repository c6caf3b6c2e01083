//! An in-process authorization registry.
//!
//! The registry tracks permission definitions and permission grants,
//! enforces referential integrity between them (a grant may only be
//! created against a permission that is already defined), and answers
//! point-in-time membership queries about grants.

pub mod laws;
pub mod registry;
pub mod shared;
