//! The descriptor language: what users write to ask for a resource.

pub mod descriptor;
