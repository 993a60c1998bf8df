//! Error kinds of the supervision core.
//!
//! Every per-source failure is contained to its own worker and is surfaced as
//! one of these values; none is silently dropped.

use vstd::prelude::*;

verus! {

/// The graph could not be constructed. Fatal to that start attempt only; the
/// worker stays alive and may accept a later start.
#[derive(Clone, Copy, Debug, PartialEq, Eq, Structural)]
pub enum BuildError {
    /// The node at this position of the descriptor could not be instantiated.
    Instantiate(usize),
    /// The link at this position of the descriptor could not be established.
    Link(usize),
}

/// A live rate reconfiguration failed.
#[derive(Clone, Copy, Debug, PartialEq, Eq, Structural)]
pub enum ReconfigureError {
    /// No node with the stable rate-filter name exists in the graph: a
    /// topology invariant was violated upstream.
    NodeNotFound,
    /// The replacement rate filter could not be instantiated after the old
    /// one was detached; the branch is left without a rate filter.
    ReplacementFailed,
    /// The replacement could not be relinked after the old filter was
    /// detached; the branch is left without a rate filter.
    RelinkFailed,
}

/// The engine refused a graph state transition.
#[derive(Clone, Copy, Debug, PartialEq, Eq, Structural)]
pub struct StateError;

/// An addressing error at the supervisor boundary.
#[derive(Clone, Copy, Debug, PartialEq, Eq, Structural)]
pub enum AddressError {
    /// A command was dispatched to a source identity that is not registered.
    UnknownSource,
    /// A spawn was requested for a source identity that is already registered.
    DuplicateSource,
}

} // verus!
