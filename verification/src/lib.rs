//! Logic of two small tools for the start of a container: a waiter that blocks until its
//! conditions hold, one after the other, and a copier that stages a directory tree and can
//! replace `{{NAME}}` tokens by the values of variables on the way.
//!
//! Nothing in this library touches the system. It reads command lines, says what is to be
//! tried next, and judges what the caller observed.

pub mod args;
pub mod copier;
pub mod directive;
pub mod error;
pub mod handoff;
pub mod number;
pub mod paths;
pub mod route;
pub mod template;
pub mod text;
pub mod waiter;
