//! A small service over one collection of posts, kept in an embedded SQLite
//! database behind one shared connection.
//!
//! - [`post`]: the records.
//! - [`store`]: the storage gateway, the only code that issues SQL.
//! - [`guard`]: the lock that serializes every use of the connection.
//! - [`handlers`]: the three operations, and how their outcomes map to HTTP.
pub mod guard;
pub mod handlers;
pub mod post;
pub mod store;
