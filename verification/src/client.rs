//! The daemon's side facing Discord: what the editor shows is read into
//! the session, and the session is shown as a rich-presence activity.

pub mod fetch;
pub mod load;
pub mod run;
