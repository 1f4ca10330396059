//! A todo list kept in an embedded SQLite store and served over HTTP.
//!
//! - [`todo`]: the entry, the bodies of the requests, and a row of the store.
//! - [`decimal`]: the decimal text of an id.
//! - [`statement`]: the parameterized SQL statements, among them the update
//!   that is assembled from the fields a request names.
//! - [`store`]: the gateway that owns the connection and sends the statements.
//! - [`router`]: from a decoded request to the status that answers it.
//!
//! Decoding and encoding JSON, listening for connections and guarding the
//! gateway with a lock are left to the program that uses the crate.

pub mod decimal;
pub mod router;
pub mod statement;
pub mod store;
pub mod todo;
