//! Reviews of completed rides.
pub mod add;
