use vstd::prelude::*;
use vstd::slice::slice_to_vec;
use vstd::string::{StrSliceExecFns, StringExecFns};

use crate::errors::EngineError;
use crate::interface::{RunOutcome, SandboxEngine};
use crate::types::{CostSchedule, Response};

verus! {

/// Module artifact of a [`MeterEngine`]: the validated bytecode itself.
pub struct CompiledUnit {
    pub code: Vec<u8>,
}

/// What a [`MeterEngine`] charges for one run of `code`: a flat host-call
/// charge for the invocation itself, plus the scheduled instruction cost for
/// every byte of bytecode.
pub open spec fn metered_cost(code: Seq<u8>, costs: CostSchedule) -> int {
    costs.host_call_cost + code.len() * costs.instruction_cost
}

/// Deterministic sandbox engine for exercising the orchestrator without a
/// real interpreter. Compilation accepts any non-empty bytecode; a run
/// charges its metered cost, echoes the argument payload back, and traps
/// when the granted budget does not cover the cost. An empty entry-point
/// name fails instantiation, as no export can resolve it.
pub struct MeterEngine {
    /// compilation attempts made so far
    pub compiles: Ghost<nat>,
}

impl MeterEngine {
    /// A fresh engine that has compiled nothing.
    pub fn new() -> (e: Self)
        ensures
            e.compile_count() == 0,
    {
        MeterEngine { compiles: Ghost(0) }
    }
}

impl SandboxEngine for MeterEngine {
    type Module = CompiledUnit;

    open spec fn compile_count(self) -> nat {
        self.compiles@
    }

    open spec fn compile_ok(self, bytecode: Seq<u8>) -> bool {
        bytecode.len() > 0
    }

    open spec fn module_code(m: CompiledUnit) -> Seq<u8> {
        m.code@
    }

    open spec fn run_model(
        self,
        code: Seq<u8>,
        function: Seq<char>,
        param: Seq<u8>,
        budget: u64,
        costs: CostSchedule,
    ) -> RunOutcome {
        if function.len() == 0 {
            RunOutcome::Instantiation
        } else if metered_cost(code, costs) <= budget {
            RunOutcome::Success {
                ret: param,
                remaining: (budget - metered_cost(code, costs)) as u64,
            }
        } else {
            RunOutcome::Trap
        }
    }

    fn compile(&mut self, bytecode: &[u8]) -> (r: Result<CompiledUnit, String>) {
        self.compiles = Ghost(self.compiles@ + 1);
        if bytecode.len() == 0 {
            return Err(String::from_str("empty bytecode"));
        }
        Ok(CompiledUnit { code: slice_to_vec(bytecode) })
    }

    fn run(
        &self,
        module: &CompiledUnit,
        function: &str,
        param: &[u8],
        budget: u64,
        costs: &CostSchedule,
    ) -> (r: Result<Response, EngineError>) {
        if function.unicode_len() == 0 {
            return Err(EngineError::Instantiation(String::from_str("no export name was given")));
        }
        let code_len: u64 = module.code.len() as u64;
        let charged = match code_len.checked_mul(costs.instruction_cost) {
            Some(instructions) => instructions.checked_add(costs.host_call_cost),
            None => None,
        };
        match charged {
            Some(cost) => {
                if cost <= budget {
                    Ok(Response { ret: slice_to_vec(param), remaining_gas: budget - cost })
                } else {
                    Err(EngineError::Trap(String::from_str("out of budget")))
                }
            },
            None => Err(EngineError::Trap(String::from_str("out of budget"))),
        }
    }
}

} // verus!
