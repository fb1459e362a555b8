//! The resources that the composer works on, and the errors of a reconcile pass.
pub mod error;
pub mod types;
