//! A single-route creature lookup: the decisions that turn a request path and
//! the outcome of one store query into an HTTP response, with every decision
//! stated as a contract and proved.

pub mod handler;
pub mod json;
pub mod laws;
pub mod path;
pub mod response;
