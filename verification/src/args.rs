use vstd::prelude::*;

use crate::device::BatteryState;

verus! {

/// The request one invocation works on: mode flags, the polling interval,
/// an optional battery index, and the optional predicates. Built once from
/// parsed command-line input and never mutated afterwards.
#[derive(Clone, Copy, Debug)]
pub struct Args {
    /// List available battery devices instead of checking conditions.
    pub list: bool,
    /// Keep polling until all conditions pass.
    pub wait: bool,
    /// Minimum delay between polling attempts, in milliseconds.
    pub interval: u64,
    /// Emit a diagnostic line for the observation and for each predicate
    /// actually evaluated.
    pub verbose: bool,
    /// Which battery to examine when more than one exists.
    pub id: Option<usize>,
    /// Equality predicate on the battery state.
    pub state: Option<BatteryState>,
    /// Inequality predicate on the battery state.
    pub not_state: Option<BatteryState>,
    /// Strict upper bound on the charge, in whole percent.
    pub lt: Option<u8>,
    /// Strict lower bound on the charge, in whole percent.
    pub gt: Option<u8>,
}

impl Args {
    /// True when no predicate at all was requested.
    pub open spec fn no_predicates(self) -> bool {
        &&& self.lt is None
        &&& self.gt is None
        &&& self.state is None
        &&& self.not_state is None
    }
}

} // verus!
