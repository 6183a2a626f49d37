//! Verified core of a todo server that speaks the Model Context Protocol.

pub mod args;
pub mod catalog;
pub mod error;
pub mod ident;
pub mod laws;
pub mod router;
pub mod todo;
