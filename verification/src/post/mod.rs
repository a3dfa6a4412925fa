//! Posts: text content with a list of image addresses.

pub mod handler;
pub mod model;
