use sc_runtime::context::ExecutionContext;
use sc_runtime::dispatch::{call_module, create_sc, local_call};
use sc_runtime::errors::ErrorKind;
use sc_runtime::in_memory::InMemoryHost;
use sc_runtime::meter::MeterEngine;
use sc_runtime::types::{CostSchedule, ExecutionMode};

fn schedule() -> CostSchedule {
    CostSchedule { host_call_cost: 0, instruction_cost: 100_000 }
}

fn host_with_module(address: &str, bytecode: Vec<u8>, balance: u64) -> InMemoryHost {
    let mut host = InMemoryHost::new(balance, schedule());
    host.deploy(address.to_string(), bytecode);
    host
}

#[test]
fn remote_call_reconciles_budget() {
    // caller holds 1,000,000 budget units; the callee at "A1" consumes
    // 400,000 (4 bytecode bytes at 100,000 each) before returning
    let host = host_with_module("A1", vec![1, 2, 3, 4], 10);
    let mut ctx = ExecutionContext::new(host, ExecutionMode::Metered, 1_000_000);
    let mut engine = MeterEngine::new();

    let resp = call_module(&mut ctx, &mut engine, "A1", "main", b"ping", 5).unwrap();

    assert_eq!(resp.remaining_gas, 600_000);
    assert_eq!(resp.ret, b"ping".to_vec());
    assert_eq!(ctx.get_remaining_points(), 600_000);
    // the transfer of 5 coins was applied and the call was finished once
    assert_eq!(ctx.host.balance, 5);
    assert_eq!(ctx.host.finished, 1);
}

#[test]
fn two_remote_calls_notify_finish_twice() {
    let host = host_with_module("A1", vec![1], 0);
    let mut ctx = ExecutionContext::new(host, ExecutionMode::Metered, 1_000_000);
    let mut engine = MeterEngine::new();

    let first = call_module(&mut ctx, &mut engine, "A1", "main", b"", 0).unwrap();
    assert_eq!(first.remaining_gas, 900_000);
    let second = call_module(&mut ctx, &mut engine, "A1", "main", b"", 0).unwrap();
    // the second call is granted only what the first one left
    assert_eq!(second.remaining_gas, 800_000);
    assert_eq!(ctx.get_remaining_points(), 800_000);
    assert_eq!(ctx.host.finished, 2);
}

#[test]
fn negative_transfer_rejected_before_any_work() {
    let host = host_with_module("A1", vec![1, 2, 3, 4], 10);
    let mut ctx = ExecutionContext::new(host, ExecutionMode::Metered, 1_000_000);
    let mut engine = MeterEngine::new();

    let err = call_module(&mut ctx, &mut engine, "A1", "main", b"ping", -1).unwrap_err();

    assert_eq!(err.kind(), ErrorKind::Error);
    // budget ledger unchanged, no transfer, no finish notification
    assert_eq!(ctx.get_remaining_points(), 1_000_000);
    assert_eq!(ctx.host.balance, 10);
    assert_eq!(ctx.host.finished, 0);
}

#[test]
fn rejected_call_is_idempotent() {
    let host = host_with_module("A1", vec![1, 2, 3, 4], 10);
    let mut ctx = ExecutionContext::new(host, ExecutionMode::Metered, 1_000_000);
    let mut engine = MeterEngine::new();

    let first = call_module(&mut ctx, &mut engine, "A1", "main", b"ping", -1).unwrap_err();
    let second = call_module(&mut ctx, &mut engine, "A1", "main", b"ping", -1).unwrap_err();

    assert_eq!(first.kind(), second.kind());
    assert_eq!(ctx.get_remaining_points(), 1_000_000);
    assert_eq!(ctx.host.balance, 10);

    // the same holds for a request the host refuses to initiate
    let third = call_module(&mut ctx, &mut engine, "B2", "main", b"ping", 0).unwrap_err();
    let fourth = call_module(&mut ctx, &mut engine, "B2", "main", b"ping", 0).unwrap_err();
    assert_eq!(third.kind(), ErrorKind::Error);
    assert_eq!(third.kind(), fourth.kind());
    assert_eq!(ctx.get_remaining_points(), 1_000_000);
}

#[test]
fn unknown_address_fails_with_runtime_error() {
    let host = InMemoryHost::new(10, schedule());
    let mut ctx = ExecutionContext::new(host, ExecutionMode::Metered, 1_000_000);
    let mut engine = MeterEngine::new();

    let err = call_module(&mut ctx, &mut engine, "A1", "main", b"", 0).unwrap_err();
    assert_eq!(err.kind(), ErrorKind::Error);
    assert_eq!(ctx.host.finished, 0);
}

#[test]
fn insufficient_balance_fails_with_runtime_error() {
    let host = host_with_module("A1", vec![1], 4);
    let mut ctx = ExecutionContext::new(host, ExecutionMode::Metered, 1_000_000);
    let mut engine = MeterEngine::new();

    let err = call_module(&mut ctx, &mut engine, "A1", "main", b"", 5).unwrap_err();
    assert_eq!(err.kind(), ErrorKind::Error);
    assert_eq!(ctx.host.balance, 4);
    assert_eq!(ctx.get_remaining_points(), 1_000_000);
}

#[test]
fn compile_failure_has_its_own_kind() {
    // empty bytecode is the one thing the metering engine will not compile
    let host = host_with_module("A1", vec![], 10);
    let mut ctx = ExecutionContext::new(host, ExecutionMode::Metered, 1_000_000);
    let mut engine = MeterEngine::new();

    let err = call_module(&mut ctx, &mut engine, "A1", "main", b"", 0).unwrap_err();
    assert_eq!(err.kind(), ErrorKind::CompileError);
    // compile failure aborts before execution and reconciliation
    assert_eq!(ctx.get_remaining_points(), 1_000_000);
    assert_eq!(ctx.host.finished, 0);
}

#[test]
fn missing_export_fails_instantiation() {
    let host = host_with_module("A1", vec![1], 10);
    let mut ctx = ExecutionContext::new(host, ExecutionMode::Metered, 1_000_000);
    let mut engine = MeterEngine::new();

    let err = call_module(&mut ctx, &mut engine, "A1", "", b"", 0).unwrap_err();
    assert_eq!(err.kind(), ErrorKind::InstantiationError);
    assert_eq!(ctx.get_remaining_points(), 1_000_000);
    assert_eq!(ctx.host.finished, 0);
}

#[test]
fn local_trap_leaves_ledger_untouched() {
    // 4 bytecode bytes cost 400,000 but only 300,000 is available: the run
    // exhausts its budget and traps; no reconciliation happens on this path
    let host = InMemoryHost::new(10, schedule());
    let mut ctx = ExecutionContext::new(host, ExecutionMode::Metered, 300_000);
    let mut engine = MeterEngine::new();

    let err = local_call(&mut ctx, &mut engine, &[1, 2, 3, 4], "main", b"").unwrap_err();

    assert_eq!(err.kind(), ErrorKind::RuntimeError);
    assert_eq!(ctx.get_remaining_points(), 300_000);
    // local calls never notify the host that a call finished
    assert_eq!(ctx.host.finished, 0);
    assert_eq!(ctx.host.balance, 10);
}

#[test]
fn successful_local_call_sends_no_finish_notification() {
    let host = InMemoryHost::new(10, schedule());
    let mut ctx = ExecutionContext::new(host, ExecutionMode::Metered, 1_000_000);
    let mut engine = MeterEngine::new();

    let resp = local_call(&mut ctx, &mut engine, &[1, 2], "run", b"xy").unwrap();

    assert_eq!(resp.remaining_gas, 800_000);
    assert_eq!(resp.ret, b"xy".to_vec());
    assert_eq!(ctx.get_remaining_points(), 800_000);
    assert_eq!(ctx.host.finished, 0);
    assert_eq!(ctx.host.balance, 10);
}

#[test]
fn local_compile_failure_has_its_own_kind() {
    let host = InMemoryHost::new(10, schedule());
    let mut ctx = ExecutionContext::new(host, ExecutionMode::Metered, 1_000_000);
    let mut engine = MeterEngine::new();

    let err = local_call(&mut ctx, &mut engine, &[], "main", b"").unwrap_err();
    assert_eq!(err.kind(), ErrorKind::CompileError);
    assert_eq!(ctx.get_remaining_points(), 1_000_000);
}

#[test]
fn create_module_is_pure_delegation() {
    let mut host = InMemoryHost::new(10, schedule());
    host.queue_address("NEW1".to_string());
    let mut ctx = ExecutionContext::new(host, ExecutionMode::Metered, 1_000_000);

    let address = create_sc(&mut ctx, &[7, 7]).unwrap();

    // the returned identifier is exactly what the host's registration assigned
    assert_eq!(address, "NEW1".to_string());
    assert_eq!(ctx.get_remaining_points(), 1_000_000);
    assert_eq!(ctx.host.finished, 0);

    // the registered module is now callable like any deployed one
    let mut engine = MeterEngine::new();
    let resp = call_module(&mut ctx, &mut engine, "NEW1", "main", b"ok", 0).unwrap();
    assert_eq!(resp.ret, b"ok".to_vec());
    assert_eq!(resp.remaining_gas, 800_000);
}

#[test]
fn create_module_without_queued_address_fails() {
    let host = InMemoryHost::new(10, schedule());
    let mut ctx = ExecutionContext::new(host, ExecutionMode::Metered, 1_000_000);

    let first = create_sc(&mut ctx, &[7, 7]).unwrap_err();
    let second = create_sc(&mut ctx, &[7, 7]).unwrap_err();
    assert_eq!(first.kind(), ErrorKind::Error);
    assert_eq!(first.kind(), second.kind());
}

#[test]
fn finish_refusal_surfaces_after_reconciliation() {
    let host = host_with_module("A1", vec![1, 2, 3, 4], 10);
    let mut ctx = ExecutionContext::new(host, ExecutionMode::Metered, 1_000_000);
    // the host will accept no further finish-call notification
    ctx.host.finished = u64::MAX;
    let mut engine = MeterEngine::new();

    let err = call_module(&mut ctx, &mut engine, "A1", "main", b"", 0).unwrap_err();

    assert_eq!(err.kind(), ErrorKind::Error);
    // the budget had already been reconciled when the notification failed
    assert_eq!(ctx.get_remaining_points(), 600_000);
    assert_eq!(ctx.host.finished, u64::MAX);
}

#[test]
fn calibration_mode_grants_unbounded_budget_and_skips_write_back() {
    let host = InMemoryHost::new(10, schedule());
    let mut ctx = ExecutionContext::new(host, ExecutionMode::Calibration, 50);
    let mut engine = MeterEngine::new();

    // far more expensive than the context's own 50 points
    let resp = local_call(&mut ctx, &mut engine, &[1, 2, 3, 4], "main", b"").unwrap();

    assert_eq!(resp.remaining_gas, u64::MAX - 400_000);
    // no reconciliation under calibration: the ledger keeps its old value
    assert_eq!(ctx.get_remaining_points(), 50);
}

#[test]
fn calibration_remote_call_keeps_ledger() {
    let host = host_with_module("A1", vec![1, 2, 3, 4], 10);
    let mut ctx = ExecutionContext::new(host, ExecutionMode::Calibration, 50);
    let mut engine = MeterEngine::new();

    let resp = call_module(&mut ctx, &mut engine, "A1", "main", b"", 0).unwrap();
    assert_eq!(resp.remaining_gas, u64::MAX - 400_000);
    assert_eq!(ctx.get_remaining_points(), 50);
    assert_eq!(ctx.host.finished, 1);
}
