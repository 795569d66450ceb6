//! The command-line surface.

pub mod args;
pub mod error;
pub mod grammar;
pub mod laws;
pub mod level;
pub mod options;
pub mod parser;
