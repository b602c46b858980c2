//! The settings that every component is built from.

use vstd::prelude::*;

verus! {

/// The service's settings. The record is made once at start-up and never
/// changed afterwards.
#[derive(Clone, Debug, PartialEq, Eq)]
pub struct BasinConfig {
    pub name: String,
    pub waterwheel_username: String,
    pub waterwheel_password: String,
    pub waterwheel_project: String,
    pub waterwheel_url: String,
    pub event_sqs_url: String,
    pub redis_url: String,
}

} // verus!
