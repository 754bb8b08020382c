//! Word-level text commands in the manner of the shell tools they are named after.

pub mod awk;
pub mod grep;
