//! Categories: a name with an id.

pub mod handler;
pub mod model;
