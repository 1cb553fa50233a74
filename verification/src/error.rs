//! Why an estimate could not be made.

use vstd::prelude::*;

verus! {

/// The ways in which an estimate fails. A message that would fail if it were
/// included is not among them: the gas-limit estimate reports that in its
/// result.
#[derive(Debug, Clone, Copy, PartialEq, Eq, Structural)]
pub enum EstimationError {
    /// The heaviest tipset, or an ancestor needed on the way back from it, is
    /// not there. May pass once the chain has synced further.
    ChainStateUnavailable,
    /// A factor could not be turned into a fixed-point integer.
    NumericConversion,
    /// The sender's key address could not be resolved.
    AddressResolution,
    /// The simulation itself failed, as opposed to the simulated message.
    Executor,
}

} // verus!
