//! Topics: a title and a JSON document with the author and a view counter.

pub mod model;
pub mod handler;
