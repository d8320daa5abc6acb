//! Verified core of the Usher ride-sharing backend.
//!
//! The library holds the decisions that the HTTP server makes: how a request
//! is checked, which database operation it leads to, how the outcome of that
//! operation becomes a reply, how access and renew tokens are framed and
//! signed, and which HTTP status code answers each error.
pub mod handlers;
pub mod ids;
pub mod json;
pub mod jwt_controller;
pub mod response;

