//! Mutation testing for Rust projects: find the `+` and `-` operators of
//! production functions, derive one mutant per candidate replacement, and
//! classify how the project's own tests react to each mutant.
pub mod analyze;
pub mod cli;
pub mod color;
pub mod diff;
pub mod error;
pub mod mutation;
pub mod report;
pub mod sample;
pub mod reporting;
pub mod syntax;
pub mod text;
pub mod verify;
pub mod workspace;
