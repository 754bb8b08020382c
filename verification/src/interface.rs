//! What a session is about: its languages and its code-editing state.

pub mod code;
pub mod languages;
