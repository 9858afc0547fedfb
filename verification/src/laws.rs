use vstd::prelude::*;

use crate::context::ExecutionContext;
use crate::dispatch::{call_module_post, create_sc_post, is_error_kind, local_call_post};
use crate::errors::{ABIError, ErrorKind};
use crate::interface::{HostInterface, SandboxEngine};
use crate::types::{ExecutionMode, Response};

verus! {

/// Law: for every non-negative transfer amount, a successful remote call
/// leaves the caller's remaining budget equal to the budget granted to the
/// callee minus the budget the callee actually consumed — exactly, with no
/// off-by-one and no double charge.
pub proof fn lemma_successful_call_reconciles_budget<H: HostInterface, E: SandboxEngine>(
    c0: ExecutionContext<H>,
    e0: E,
    c1: ExecutionContext<H>,
    e1: E,
    address: Seq<char>,
    function: Seq<char>,
    param: Seq<u8>,
    raw_coins: i64,
    resp: Response,
)
    requires
        c0.mode == ExecutionMode::Metered,
        raw_coins >= 0,
        call_module_post(c0, e0, c1, e1, address, function, param, raw_coins, Ok(resp)),
    ensures
        resp.remaining_gas <= c0.remaining,
        c1.remaining == c0.remaining - (c0.remaining - resp.remaining_gas),
{
}

/// Law: for every negative transfer amount, remote call dispatch fails with
/// a request-validation error before any sandbox compilation occurs — the
/// engine has recorded no compilation attempt and the context, its budget
/// ledger included, is exactly as it was.
pub proof fn lemma_negative_transfer_rejected_before_compile<
    H: HostInterface,
    E: SandboxEngine,
>(
    c0: ExecutionContext<H>,
    e0: E,
    c1: ExecutionContext<H>,
    e1: E,
    address: Seq<char>,
    function: Seq<char>,
    param: Seq<u8>,
    raw_coins: i64,
    r: Result<Response, ABIError>,
)
    requires
        raw_coins < 0,
        call_module_post(c0, e0, c1, e1, address, function, param, raw_coins, r),
    ensures
        is_error_kind(r, ErrorKind::Error),
        e1.compile_count() == e0.compile_count(),
        e1 == e0,
        c1 == c0,
{
}

/// Law: local call dispatch never reaches the host interface — in
/// particular, it never sends a finish-call notification, whatever the
/// bytecode, the entry point, the payload, or the outcome.
pub proof fn lemma_local_call_never_notifies_host<H: HostInterface, E: SandboxEngine>(
    c0: ExecutionContext<H>,
    e0: E,
    c1: ExecutionContext<H>,
    e1: E,
    bytecode: Seq<u8>,
    function: Seq<char>,
    param: Seq<u8>,
    r: Result<Response, ABIError>,
)
    requires
        local_call_post(c0, e0, c1, e1, bytecode, function, param, r),
    ensures
        c1.host == c0.host,
        c1.host.finish_count() == c0.host.finish_count(),
{
}

/// Law: under metered execution, remote call dispatch never increases the
/// caller's remaining budget, whether the call succeeds, is rejected, or
/// fails anywhere along the way.
pub proof fn lemma_metered_remote_call_monotone<H: HostInterface, E: SandboxEngine>(
    c0: ExecutionContext<H>,
    e0: E,
    c1: ExecutionContext<H>,
    e1: E,
    address: Seq<char>,
    function: Seq<char>,
    param: Seq<u8>,
    raw_coins: i64,
    r: Result<Response, ABIError>,
)
    requires
        c0.mode == ExecutionMode::Metered,
        call_module_post(c0, e0, c1, e1, address, function, param, raw_coins, r),
    ensures
        c1.remaining <= c0.remaining,
{
}

/// Law: under metered execution, local call dispatch never increases the
/// caller's remaining budget.
pub proof fn lemma_metered_local_call_monotone<H, E: SandboxEngine>(
    c0: ExecutionContext<H>,
    e0: E,
    c1: ExecutionContext<H>,
    e1: E,
    bytecode: Seq<u8>,
    function: Seq<char>,
    param: Seq<u8>,
    r: Result<Response, ABIError>,
)
    requires
        c0.mode == ExecutionMode::Metered,
        local_call_post(c0, e0, c1, e1, bytecode, function, param, r),
    ensures
        c1.remaining <= c0.remaining,
{
}

/// Law: the failure paths that reject a request before any work is done are
/// idempotent. Dispatching the same malformed remote call twice — a negative
/// transfer amount, or a request the host refuses to initiate — produces an
/// error of the identical kind both times and leaves context and engine as
/// they started: the failure path mutates no hidden state.
pub proof fn lemma_rejected_call_idempotent<H: HostInterface, E: SandboxEngine>(
    c0: ExecutionContext<H>,
    e0: E,
    c1: ExecutionContext<H>,
    e1: E,
    c2: ExecutionContext<H>,
    e2: E,
    address: Seq<char>,
    function: Seq<char>,
    param: Seq<u8>,
    raw_coins: i64,
    r1: Result<Response, ABIError>,
    r2: Result<Response, ABIError>,
)
    requires
        raw_coins < 0 || !c0.host.init_call_ok(address, raw_coins as u64),
        call_module_post(c0, e0, c1, e1, address, function, param, raw_coins, r1),
        call_module_post(c1, e1, c2, e2, address, function, param, raw_coins, r2),
    ensures
        is_error_kind(r1, ErrorKind::Error),
        is_error_kind(r2, ErrorKind::Error),
        r1 matches Err(a) && r2 matches Err(b) && a.kind_spec() == b.kind_spec(),
        c2 == c0,
        e2 == e0,
{
}

/// Law: a refused module creation is idempotent as well. Registering the
/// same bytecode twice while the host refuses it produces an error of the
/// identical kind both times and leaves the context as it started.
pub proof fn lemma_refused_creation_idempotent<H: HostInterface>(
    c0: ExecutionContext<H>,
    c1: ExecutionContext<H>,
    c2: ExecutionContext<H>,
    bytecode: Seq<u8>,
    r1: Result<String, ABIError>,
    r2: Result<String, ABIError>,
)
    requires
        !c0.host.create_module_ok(bytecode),
        create_sc_post(c0, c1, bytecode, r1),
        create_sc_post(c1, c2, bytecode, r2),
    ensures
        is_error_kind(r1, ErrorKind::Error),
        is_error_kind(r2, ErrorKind::Error),
        r1 matches Err(a) && r2 matches Err(b) && a.kind_spec() == b.kind_spec(),
        c2 == c0,
{
}

} // verus!
