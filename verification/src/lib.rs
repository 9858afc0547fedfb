//! Execution core of a sandboxed, gas-metered bytecode runtime.
//!
//! The crate orchestrates nested calls between guest modules: it validates a
//! call request, asks the host interface to resolve the target and apply the
//! value transfer, compiles the target bytecode with a sandbox engine, runs
//! the requested export under an explicit resource budget, and reconciles the
//! caller's remaining budget with what the callee actually consumed.
//!
//! The sandbox engine and the host ledger are external collaborators; they
//! appear here only as the traits [`interface::SandboxEngine`] and
//! [`interface::HostInterface`], whose contracts every implementation must
//! prove. [`in_memory::InMemoryHost`] and [`meter::MeterEngine`] are verified
//! deterministic implementations, suitable for exercising the orchestrator
//! without a real ledger or engine.

pub mod context;
pub mod dispatch;
pub mod errors;
pub mod in_memory;
pub mod interface;
pub mod laws;
pub mod meter;
pub mod types;
