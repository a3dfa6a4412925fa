//! Sessions: a token and a bag of string data kept in a Postgres `hstore`.

pub mod handler;
pub mod model;
