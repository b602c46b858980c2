//! Reconciliation core of a declarative control plane.
//!
//! Users describe databases, tables and data flows; this crate holds the
//! rules that turn a descriptor into calls on an object store, a catalog
//! and a workflow engine. It performs no I/O itself: every function takes
//! plain values and returns plain values, and a host program carries out
//! the calls that the functions ask for.

pub mod config;
pub mod controller;
pub mod convergence;
pub mod deployment_state_store;
pub mod descriptor_event_watcher;
pub mod descriptor_store;
pub mod fluid;
pub mod intake;
pub mod pattern;
pub mod provisioner;
pub mod shell;
pub mod text;
