//! qrep: apply one regular-expression substitution to a text.
//!
//! The library validates the four positional arguments, compiles the
//! pattern, replaces every non-overlapping leftmost match in the input
//! text, and renders the diagnostics that each failure calls for.

pub mod args;
pub mod digits;
pub mod engine;
pub mod error;
