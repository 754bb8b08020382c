//! The helper traits, as the loader uses them.

pub use crate::traits::{RegexMatcher, RiseFormat, TimeKeeper, UnwrapAndLog, UnwrapAndLogOr};
