//! An in-memory content-management model layer: a generic record store with
//! create/get/list/update/delete operations, typed entity modules on top of it
//! (articles, authors, categories, comments, subscriptions, article views),
//! and an RPC dispatch layer that maps method names and JSON-like parameter
//! values onto those operations.

pub mod ctx;
pub mod dev_utils;
pub mod error;
pub mod model;
pub mod rpcs;
