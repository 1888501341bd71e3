//! Static validator for an interface-definition surface that describes the
//! boundary between two runtimes: a managed side with automatic ownership
//! tracking and a native side with manual, single-owner memory management.
//!
//! The input is an already-parsed definition surface: a registry of declared
//! type names together with every type occurrence, and an ordered list of
//! declared items (shared structs and boundary functions).  Three passes run
//! in order over that surface — type well-formedness, sizedness of fields,
//! arguments and returns, and per-function signature constraints — and their
//! diagnostics, together with those of an external identifier cross-reference
//! checker, are merged losslessly into a single combined result.

pub mod ast;
pub mod atoms;
pub mod check;
pub mod describe;
pub mod diag;
pub mod laws;
