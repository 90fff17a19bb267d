//! Decides how an editor starts the cognitive-complexity language server:
//! from a script next to the extension, from a release archive fetched into a
//! version-named cache directory, or from an executable on the search path.
//!
//! The library performs no I/O itself. A `Resolver` is a state machine: each
//! step names the single outside operation the host must perform next, and the
//! host answers with the outcome of that operation.

pub mod command;
pub mod error;
pub mod release;
pub mod resolver;
pub mod laws;
