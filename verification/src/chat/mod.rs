//! The chat room: logins are announced on a Postgres notification channel.

pub mod handler;
pub mod model;
