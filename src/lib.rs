//! A typed layer over the SQLite engine: the tagged value model, the ordered
//! parameter store, and the decisions of the statement and connection
//! lifecycles, each stated and proved. The engine's own calls are made by the
//! host program, which hands their status codes and column data to the
//! state machines defined here.
pub mod types;
pub mod value;
pub mod store;
pub mod stmt;
pub mod hash;
pub mod db;
