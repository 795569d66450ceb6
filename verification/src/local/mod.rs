//! Components that run on the local machine.

pub mod cli;
