//! # shoulds
//!
//! `shoulds` is a fluent assertion library for writing expressive and readable
//! test assertions: any value exposes `.should()`, and the wrapper that it
//! returns offers `eq`, `ne`, `be_true`, `be_false`, `be_some`, `be_none`,
//! `be_ok` and `be_err`.
//!
//! Every assertion comes in two forms. The `try_` form is total: it returns the
//! failure, with its message, as a value. The plain form is for subjects that
//! pass: a verified caller proves that its subject does, and a caller outside
//! the verifier whose subject does not is halted with the failure's message.
//!
//! The module `laws` states what holds of the assertions in general.
pub mod core_bool;
pub mod core_eq;
pub mod core_ne;
pub mod core_option;
pub mod core_result;
pub mod failure;
pub mod laws;
pub mod should;

pub use failure::AssertionFailed;
pub use should::{Should, Shouldable};
