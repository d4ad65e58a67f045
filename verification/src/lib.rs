//! A task-list service: the decisions of its router and of its task
//! repository, as functions from what was received to what is answered.
//!
//! The service itself talks to a document store and to the network; nothing
//! here does. Each function takes what arrived (a request line, a decoded
//! payload, the outcome of a store operation) and says what happens next.

pub mod config;
pub mod http;
pub mod repository;
pub mod router;
pub mod task;
