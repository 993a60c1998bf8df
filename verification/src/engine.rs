//! The media engine's answers, as plain values.
//!
//! The engine itself is an external collaborator: it instantiates nodes,
//! links them, changes graph states and reports bus events. The supervision
//! core never calls it directly; the runtime performs the calls and hands the
//! outcome in as one of these values, so every decision taken on an outcome
//! is verified for every value the engine could answer.

use vstd::prelude::*;

verus! {

/// The engine's answer to instantiating a whole descriptor.
#[derive(Clone, Copy, Debug, PartialEq, Eq, Structural)]
pub enum BuildOutcome {
    /// Every node was instantiated and every link established.
    Built,
    /// The node at this position of the descriptor could not be instantiated.
    NodeFailed(usize),
    /// The link at this position of the descriptor could not be established.
    LinkFailed(usize),
}

/// The engine's answer to instantiating the replacement rate filter during a
/// live rate reconfiguration.
#[derive(Clone, Copy, Debug, PartialEq, Eq, Structural)]
pub enum SwapOutcome {
    /// The replacement was instantiated and relinked in place.
    Replaced,
    /// The replacement could not be instantiated; the branch is left without
    /// a rate filter.
    ReplacementFailed,
    /// The replacement was instantiated but could not be relinked into the
    /// detached instance's position; the branch is left without a rate
    /// filter rather than silently reverted.
    RelinkFailed,
}

/// One lifecycle event read from the engine's bus for a running graph.
#[derive(Clone, Copy, Debug, PartialEq, Eq, Structural)]
pub enum GraphEvent {
    /// The stream ended cleanly.
    Eos,
    /// The engine reported an unrecoverable runtime error.
    RuntimeError,
    /// Any other notification; the run loop ignores it.
    Other,
}

} // verus!
