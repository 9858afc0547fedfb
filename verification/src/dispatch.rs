use vstd::prelude::*;
use vstd::string::StringExecFns;

use crate::context::{granted_budget, ExecutionContext};
use crate::errors::{ABIError, ABIResult, EngineError, ErrorKind};
use crate::interface::{HostInterface, RunOutcome, SandboxEngine};
use crate::types::Response;

verus! {

/// `r` failed with an error of kind `k`.
pub open spec fn is_error_kind<T>(r: Result<T, ABIError>, k: ErrorKind) -> bool {
    r matches Err(e) && e.kind_spec() == k
}

/// The frame-local configuration of the context is untouched: cost schedule
/// and metering mode are as they were.
pub open spec fn same_config<H>(c0: ExecutionContext<H>, c1: ExecutionContext<H>) -> bool {
    &&& c1.costs == c0.costs
    &&& c1.mode == c0.mode
}

/// The engine went through exactly one compilation attempt and runs modules
/// as it did before.
pub open spec fn one_compile_attempt<E: SandboxEngine>(e0: E, e1: E) -> bool {
    &&& e1.compile_count() == e0.compile_count() + 1
    &&& forall|code: Seq<u8>, function: Seq<char>, param: Seq<u8>, budget: u64, costs:
        crate::types::CostSchedule|
        #[trigger] e1.run_model(code, function, param, budget, costs) == e0.run_model(
            code,
            function,
            param,
            budget,
            costs,
        )
}

/// Everything [`call_module`] guarantees, relating the context and engine
/// before the call (`c0`, `e0`) to those after it (`c1`, `e1`) and to the
/// returned result.
pub open spec fn call_module_post<H: HostInterface, E: SandboxEngine>(
    c0: ExecutionContext<H>,
    e0: E,
    c1: ExecutionContext<H>,
    e1: E,
    address: Seq<char>,
    function: Seq<char>,
    param: Seq<u8>,
    raw_coins: i64,
    r: Result<Response, ABIError>,
) -> bool {
    if raw_coins < 0 {
        // request validation: rejected before any host or engine work
        &&& is_error_kind(r, ErrorKind::Error)
        &&& c1 == c0
        &&& e1 == e0
    } else if !c0.host.init_call_ok(address, raw_coins as u64) {
        // the host refused to initiate the call; nothing was consumed
        &&& is_error_kind(r, ErrorKind::Error)
        &&& c1 == c0
        &&& e1 == e0
    } else {
        let code = c0.host.init_call_bytecode(address, raw_coins as u64);
        let budget = granted_budget(c0);
        &&& same_config(c0, c1)
        &&& one_compile_attempt(e0, e1)
        &&& if !e0.compile_ok(code) {
            &&& is_error_kind(r, ErrorKind::CompileError)
            &&& c1.remaining == c0.remaining
            &&& c1.host.finish_count() == c0.host.finish_count()
        } else {
            match e0.run_model(code, function, param, budget, c0.costs) {
                RunOutcome::Trap => {
                    &&& is_error_kind(r, ErrorKind::RuntimeError)
                    &&& c1.remaining == c0.remaining
                    &&& c1.host.finish_count() == c0.host.finish_count()
                },
                RunOutcome::Instantiation => {
                    &&& is_error_kind(r, ErrorKind::InstantiationError)
                    &&& c1.remaining == c0.remaining
                    &&& c1.host.finish_count() == c0.host.finish_count()
                },
                RunOutcome::Success { ret, remaining } => {
                    // reconciliation: the caller is charged exactly what the
                    // callee consumed, except under calibration
                    &&& remaining <= budget
                    &&& c1.remaining == (if c0.mode is Calibration {
                        c0.remaining
                    } else {
                        remaining
                    })
                    &&& if c0.host.finish_call_ok() {
                        &&& (r matches Ok(resp) && resp.ret@ == ret && resp.remaining_gas
                            == remaining)
                        &&& c1.host.finish_count() == c0.host.finish_count() + 1
                    } else {
                        &&& is_error_kind(r, ErrorKind::Error)
                        &&& c1.host.finish_count() == c0.host.finish_count()
                    }
                },
            }
        }
    }
}

/// Everything [`local_call`] guarantees. The host is untouched in every
/// case: a local call resolves no address, transfers no value, and sends no
/// finish-call notification.
pub open spec fn local_call_post<H, E: SandboxEngine>(
    c0: ExecutionContext<H>,
    e0: E,
    c1: ExecutionContext<H>,
    e1: E,
    bytecode: Seq<u8>,
    function: Seq<char>,
    param: Seq<u8>,
    r: Result<Response, ABIError>,
) -> bool {
    let budget = granted_budget(c0);
    &&& c1.host == c0.host
    &&& same_config(c0, c1)
    &&& one_compile_attempt(e0, e1)
    &&& if !e0.compile_ok(bytecode) {
        &&& is_error_kind(r, ErrorKind::CompileError)
        &&& c1.remaining == c0.remaining
    } else {
        match e0.run_model(bytecode, function, param, budget, c0.costs) {
            RunOutcome::Trap => {
                &&& is_error_kind(r, ErrorKind::RuntimeError)
                &&& c1.remaining == c0.remaining
            },
            RunOutcome::Instantiation => {
                &&& is_error_kind(r, ErrorKind::InstantiationError)
                &&& c1.remaining == c0.remaining
            },
            RunOutcome::Success { ret, remaining } => {
                &&& remaining <= budget
                &&& (r matches Ok(resp) && resp.ret@ == ret && resp.remaining_gas == remaining)
                &&& c1.remaining == (if c0.mode is Calibration {
                    c0.remaining
                } else {
                    remaining
                })
            },
        }
    }
}

/// Everything [`create_sc`] guarantees: pure delegation to the host's
/// registration capability, with no budget movement and no finish-call
/// notification. No engine takes part, so no compilation can occur.
pub open spec fn create_sc_post<H: HostInterface>(
    c0: ExecutionContext<H>,
    c1: ExecutionContext<H>,
    bytecode: Seq<u8>,
    r: Result<String, ABIError>,
) -> bool {
    &&& same_config(c0, c1)
    &&& c1.remaining == c0.remaining
    &&& c1.host.finish_count() == c0.host.finish_count()
    &&& (r is Ok <==> c0.host.create_module_ok(bytecode))
    &&& (r matches Ok(address) ==> address@ == c0.host.create_module_address(bytecode))
    &&& (r is Err ==> is_error_kind(r, ErrorKind::Error) && c1 == c0)
}

/// Translate an engine failure into the ABI error taxonomy: a trap becomes a
/// runtime error, an instantiation failure keeps its own kind.
fn abi_error_of_engine(e: EngineError) -> (r: ABIError)
    ensures
        r.kind_spec() == (match e {
            EngineError::Trap(_) => ErrorKind::RuntimeError,
            EngineError::Instantiation(_) => ErrorKind::InstantiationError,
        }),
        r.message_spec() == e.message_spec(),
{
    match e {
        EngineError::Trap(m) => ABIError::RuntimeError(m),
        EngineError::Instantiation(m) => ABIError::InstantiationError(m),
    }
}

/// Remote call dispatch: call the export `function` of the module deployed
/// at `address`, transferring `raw_coins` and granting the callee the
/// caller's remaining budget. On success the caller's budget is reconciled
/// to what the callee left and the host is notified that the call finished.
///
/// Reconciliation happens only once a successful response is produced: a
/// compile failure or a trapped run leaves the budget ledger at its
/// pre-call value, so whatever the callee consumed before trapping is
/// refunded rather than charged to the caller.
pub fn call_module<H: HostInterface, E: SandboxEngine>(
    ctx: &mut ExecutionContext<H>,
    engine: &mut E,
    address: &str,
    function: &str,
    param: &[u8],
    raw_coins: i64,
) -> (r: ABIResult<Response>)
    ensures
        call_module_post(
            *old(ctx),
            *old(engine),
            *final(ctx),
            *final(engine),
            address@,
            function@,
            param@,
            raw_coins,
            r,
        ),
{
    if raw_coins < 0 {
        return Err(ABIError::Error(String::from_str("negative amount of coins in Call")));
    }
    let coins: u64 = raw_coins as u64;
    let bytecode = match ctx.host.init_call(address, coins) {
        Ok(code) => code,
        Err(m) => {
            return Err(ABIError::Error(m));
        },
    };
    let budget: u64 = match ctx.mode {
        crate::types::ExecutionMode::Calibration => u64::MAX,
        crate::types::ExecutionMode::Metered => ctx.get_remaining_points(),
    };
    let module = match engine.compile(bytecode.as_slice()) {
        Ok(m) => m,
        Err(m) => {
            return Err(ABIError::CompileError(m));
        },
    };
    let resp = match engine.run(&module, function, param, budget, &ctx.costs) {
        Ok(resp) => resp,
        Err(e) => {
            return Err(abi_error_of_engine(e));
        },
    };
    match ctx.mode {
        crate::types::ExecutionMode::Metered => ctx.set_remaining_points(resp.remaining_gas),
        crate::types::ExecutionMode::Calibration => (),
    }
    match ctx.host.finish_call() {
        Ok(_) => Ok(resp),
        Err(m) => Err(ABIError::Error(m)),
    }
}

/// Local call dispatch: run caller-supplied bytecode as a pure in-sandbox
/// sub-execution. No address is resolved, no value moves, and the host gets
/// no finish-call notification; only the budget is reconciled on success.
pub fn local_call<H, E: SandboxEngine>(
    ctx: &mut ExecutionContext<H>,
    engine: &mut E,
    bytecode: &[u8],
    function: &str,
    param: &[u8],
) -> (r: ABIResult<Response>)
    ensures
        local_call_post(
            *old(ctx),
            *old(engine),
            *final(ctx),
            *final(engine),
            bytecode@,
            function@,
            param@,
            r,
        ),
{
    let budget: u64 = match ctx.mode {
        crate::types::ExecutionMode::Calibration => u64::MAX,
        crate::types::ExecutionMode::Metered => ctx.get_remaining_points(),
    };
    let module = match engine.compile(bytecode) {
        Ok(m) => m,
        Err(m) => {
            return Err(ABIError::CompileError(m));
        },
    };
    let resp = match engine.run(&module, function, param, budget, &ctx.costs) {
        Ok(resp) => resp,
        Err(e) => {
            return Err(abi_error_of_engine(e));
        },
    };
    match ctx.mode {
        crate::types::ExecutionMode::Metered => ctx.set_remaining_points(resp.remaining_gas),
        crate::types::ExecutionMode::Calibration => (),
    }
    Ok(resp)
}

/// Module creation: register `bytecode` as a new deployable module and hand
/// back the address the host assigned. Pure delegation: no compilation, no
/// execution, no budget movement.
pub fn create_sc<H: HostInterface>(
    ctx: &mut ExecutionContext<H>,
    bytecode: &[u8],
) -> (r: ABIResult<String>)
    ensures
        create_sc_post(*old(ctx), *final(ctx), bytecode@, r),
{
    match ctx.host.create_module(bytecode) {
        Ok(address) => Ok(address),
        Err(m) => Err(ABIError::Error(m)),
    }
}

} // verus!
