//! What the administrative surface asks of the core.
pub mod playbook;
