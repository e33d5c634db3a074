//! Shared utilities of the front end: character and token cursors, and text
//! helpers.

pub mod character_provider;
pub mod text;
pub mod token_provider;
