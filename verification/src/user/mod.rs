//! Users: registration and renaming, with usernames kept unique.

pub mod handler;
pub mod model;
