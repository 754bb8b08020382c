//! Reading what the editor shows: the status lines of a tmux pane and the
//! file names in them.

pub mod helpers;
pub mod parser;
pub mod traits;
