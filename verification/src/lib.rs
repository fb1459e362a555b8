//! The reconciliation engine of a playbook composer.
//!
//! A playbook is an application assembled from actors that name the repositories of
//! their partners. The engine decides what a reconcile pass has to do with a playbook:
//! which status to patch, which partners to fetch, which actors to build and deploy,
//! and what to publish before a deletion may complete. Every decision is a function
//! from plain values to plain values, so that the caller that talks to the cluster only
//! has to carry the decisions out.
pub mod composer;
pub mod resolver;
pub mod resources;
pub mod services;
