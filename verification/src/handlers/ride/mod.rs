//! Rides: a customer creates one, a driver accepts it, either of them deletes
//! it while it is not over.
pub mod accept;
pub mod create;
pub mod delete;
