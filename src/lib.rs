//! Decision engine of a transparent encryption filter for files tracked in a
//! version-control repository: when staging, it decides whether the ciphertext
//! stored earlier can be reused or must be recomputed; when checking out or
//! showing a diff, it decides what the working copy sees.
pub mod clean;
pub mod context;
pub mod digest;
pub mod outcome;
pub mod run;
