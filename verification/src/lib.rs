//! Request logic of a small forum service backed by PostgreSQL: the data
//! models, the shape of the dynamic queries, and the decisions that the HTTP
//! handlers take between their database round trips.

pub mod category;
pub mod chat;
pub mod error;
pub mod post;
pub mod query;
pub mod session;
pub mod topic;
pub mod user;

pub use error::Error;
