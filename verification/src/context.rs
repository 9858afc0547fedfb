use vstd::prelude::*;

use crate::interface::HostInterface;
use crate::types::{CostSchedule, ExecutionMode};

verus! {

/// Live state of one sandboxed invocation: the host-interface capability it
/// runs against, the cost schedule fixed for its lifetime, the remaining
/// resource budget, and the metering mode chosen at construction.
pub struct ExecutionContext<H> {
    /// the host-interface capability of this invocation
    pub host: H,
    /// per-operation cost schedule, read-only for the whole invocation
    pub costs: CostSchedule,
    /// remaining resource budget ("points") of this context
    pub remaining: u64,
    /// metering mode, fixed at construction
    pub mode: ExecutionMode,
}

/// The budget granted to a nested call made from context `c`: the caller's
/// remaining budget, or an unbounded budget under calibration.
pub open spec fn granted_budget<H>(c: ExecutionContext<H>) -> u64 {
    if c.mode is Calibration {
        u64::MAX
    } else {
        c.remaining
    }
}

impl<H> ExecutionContext<H> {
    /// Read the remaining budget of this context.
    pub fn get_remaining_points(&self) -> (points: u64)
        ensures
            points == self.remaining,
    {
        self.remaining
    }

    /// Overwrite the remaining budget of this context; used only by the
    /// reconciliation step after a nested call returns.
    pub fn set_remaining_points(&mut self, points: u64)
        ensures
            final(self).remaining == points,
            final(self).host == old(self).host,
            final(self).costs == old(self).costs,
            final(self).mode == old(self).mode,
    {
        self.remaining = points;
    }
}

impl<H: HostInterface> ExecutionContext<H> {
    /// Build the context for one top-level invocation, taking the cost
    /// schedule from the host interface.
    pub fn new(host: H, mode: ExecutionMode, initial_budget: u64) -> (c: Self)
        ensures
            c.host == host,
            c.costs == host.schedule(),
            c.remaining == initial_budget,
            c.mode == mode,
    {
        let costs = host.cost_schedule();
        ExecutionContext { host, costs, remaining: initial_budget, mode }
    }
}

} // verus!
