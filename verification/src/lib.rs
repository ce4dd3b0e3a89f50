//! Objects that can validate themselves.
//!
//! An object is either valid, a state that carries no additional information,
//! or invalid, a state described by a nonempty list of validation errors. The
//! validation error type is generic rather than string-based, so that callers
//! can pattern-match, aggregate, or translate errors without losing structure.

pub mod nonempty_list;
pub mod validate;
pub mod graph;
