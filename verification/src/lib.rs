//! Per-source supervision core for a live media-graph system.
//!
//! Each camera source is owned by a `SourceWorker` that builds a processing
//! graph, runs it, and applies live rate reconfiguration on command. A
//! `Supervisor` addresses workers by source identity. The media engine itself
//! is an external collaborator: its answers (build succeeded, a node could not
//! be instantiated, a replacement failed) enter the library as plain values,
//! and every decision taken on them is verified.

pub mod descriptor;
pub mod engine;
pub mod errors;
pub mod graph;
pub mod sink;
pub mod supervisor;
pub mod worker;

use vstd::prelude::*;

verus! {

/// The externally observable states of a live graph instance.
#[derive(Clone, Copy, Debug, PartialEq, Eq, Structural)]
pub enum GraphState {
    Null,
    Ready,
    Paused,
    Playing,
    Error,
}

} // verus!
