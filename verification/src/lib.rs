//! A packed-value marshalling layer: a tagged-union value representation for
//! passing heterogeneous, dynamically-typed arguments and return values across
//! a foreign-function boundary.
//!
//! Host values are packed into a small closed set of raw wire slots, each
//! tagged with a type code. Two flavors exist: a borrowed flavor for outgoing
//! call arguments, which may reference caller-owned memory for the duration of
//! a call, and an owned flavor for return values, which manages its own
//! storage for variable-length data.

pub mod arg;
pub mod buffer;
pub mod error;
pub mod ret;
pub mod type_code;
pub mod wire;
