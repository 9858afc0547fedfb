use vstd::prelude::*;

verus! {

/// Immutable table of per-operation resource costs, supplied by the host
/// interface and read-only to the core.
#[derive(Clone, Copy, PartialEq, Eq, Structural, Debug)]
pub struct CostSchedule {
    /// flat cost charged for one host-interface operation
    pub host_call_cost: u64,
    /// cost charged per unit of guest bytecode executed
    pub instruction_cost: u64,
}

/// Result of one guest invocation: the opaque return payload and the budget
/// that remained at the moment the export returned.
#[derive(Debug)]
pub struct Response {
    /// return payload handed back by the guest export
    pub ret: Vec<u8>,
    /// resource budget left when the export returned
    pub remaining_gas: u64,
}

/// How a nested call's budget is granted and reconciled. The mode is fixed
/// when the execution context is constructed, so an unmetered run can never
/// be reached from a production configuration by a stray runtime branch.
#[derive(Clone, Copy, PartialEq, Eq, Structural, Debug)]
pub enum ExecutionMode {
    /// grant the caller's remaining budget and write back what is left
    Metered,
    /// offline cost-model calibration: unbounded budget, no write-back
    Calibration,
}

} // verus!
