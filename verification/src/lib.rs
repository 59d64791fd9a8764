//! Orchestration logic for a local multi-instance database cluster: topology
//! interpretation, instance identity and port assignment, launch and
//! readiness decisions, plugin activation statements, and stop/kill control.
//!
//! The topology model lives in [`topology`], the admin-console protocol in
//! [`admin`], per-instance launch computations in [`instance`] and
//! [`tier_config`], the orchestrator's decisions in [`run`], plugin
//! activation in [`installer`], external plugin handling in
//! [`materialize`], shutdown in [`stop`], and packing in [`pack`];
//! [`text`] holds the string groundwork they share. Process spawning,
//! sockets and the filesystem belong to the caller, which feeds their
//! outcomes into these functions as plain values.
use vstd::prelude::*;

pub mod admin;
pub mod build_helper;
pub mod cluster;
pub mod config_apply;
pub mod installer;
pub mod instance;
pub mod materialize;
pub mod pack;
pub mod run;
pub mod stop;
pub mod tier_config;
pub mod text;
pub mod topology;

verus! {

/// An error of this library, carrying a human-readable message.
#[derive(Debug)]
pub struct PikeError {
    pub msg: String,
}

impl PikeError {
    /// The error's message.
    pub fn message(&self) -> (r: &str)
        ensures
            r@ == self.msg@,
    {
        self.msg.as_str()
    }
}

} // verus!
