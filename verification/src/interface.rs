use vstd::prelude::*;

use crate::errors::EngineError;
use crate::types::{CostSchedule, Response};

verus! {

/// Abstract boundary to the ledger-backed host runtime. The core calls these
/// capabilities but never implements the ledger itself; every implementation
/// (a production host as much as an in-memory one) must prove the contracts
/// below, stated over the spec observations it defines.
pub trait HostInterface: Sized {
    /// How many finish-call notifications this host has accepted.
    spec fn finish_count(self) -> nat;

    /// Whether initiating a call to `address` with a transfer of `coins`
    /// succeeds in this state.
    spec fn init_call_ok(self, address: Seq<char>, coins: u64) -> bool;

    /// The bytecode that a successful call initiation resolves.
    spec fn init_call_bytecode(self, address: Seq<char>, coins: u64) -> Seq<u8>;

    /// Whether a finish-call notification is accepted in this state.
    spec fn finish_call_ok(self) -> bool;

    /// Whether registering `bytecode` as a new module succeeds in this state.
    spec fn create_module_ok(self, bytecode: Seq<u8>) -> bool;

    /// The address under which a successful registration stores `bytecode`.
    spec fn create_module_address(self, bytecode: Seq<u8>) -> Seq<char>;

    /// The cost schedule this host exposes.
    spec fn schedule(self) -> CostSchedule;

    /// Resolve `address` to its stored bytecode and apply the transfer of
    /// `coins`, as the first step of a remote call. On failure the host is
    /// left exactly as it was; either way it sends no finish-call
    /// notification and keeps accepting or refusing them as before.
    fn init_call(&mut self, address: &str, coins: u64) -> (r: Result<Vec<u8>, String>)
        ensures
            r is Ok <==> old(self).init_call_ok(address@, coins),
            (r matches Ok(code) ==> code@ == old(self).init_call_bytecode(address@, coins)),
            r is Err ==> *final(self) == *old(self),
            final(self).finish_count() == old(self).finish_count(),
            final(self).finish_call_ok() == old(self).finish_call_ok(),
    ;

    /// Note that the remote call initiated last has finished, so the host can
    /// commit or roll back its call-scoped bookkeeping.
    fn finish_call(&mut self) -> (r: Result<(), String>)
        ensures
            r is Ok <==> old(self).finish_call_ok(),
            r is Ok ==> final(self).finish_count() == old(self).finish_count() + 1,
            r is Err ==> *final(self) == *old(self),
    ;

    /// Register `bytecode` as a new deployable module and return its address.
    /// On failure the host is left exactly as it was; either way no
    /// finish-call notification is sent.
    fn create_module(&mut self, bytecode: &[u8]) -> (r: Result<String, String>)
        ensures
            r is Ok <==> old(self).create_module_ok(bytecode@),
            (r matches Ok(address) ==> address@ == old(self).create_module_address(bytecode@)),
            r is Err ==> *final(self) == *old(self),
            final(self).finish_count() == old(self).finish_count(),
    ;

    /// Expose the host's cost schedule.
    fn cost_schedule(&self) -> (costs: CostSchedule)
        ensures
            costs == self.schedule(),
    ;
}

/// What one engine run of a compiled module comes to, as a sandbox engine
/// describes it at the specification level.
pub enum RunOutcome {
    /// the export returned: its payload and the budget left at that moment
    Success { ret: Seq<u8>, remaining: u64 },
    /// guest code faulted or exhausted its budget
    Trap,
    /// the module could not be instantiated
    Instantiation,
}

/// Abstract sandboxed-execution engine: it compiles bytecode into an opaque
/// module artifact and runs a named export under an explicit budget. The
/// engine itself is an external collaborator; implementations prove the
/// contracts below over the spec observations they define.
pub trait SandboxEngine: Sized {
    /// Engine-owned artifact produced by compilation.
    type Module;

    /// How many compilation attempts this engine has made.
    spec fn compile_count(self) -> nat;

    /// Whether `bytecode` compiles in this state.
    spec fn compile_ok(self, bytecode: Seq<u8>) -> bool;

    /// The bytecode a module artifact was compiled from.
    spec fn module_code(m: Self::Module) -> Seq<u8>;

    /// What running `function` of a module compiled from `code` on `param`
    /// under `budget` comes to. Running is deterministic in these arguments
    /// and in the cost schedule.
    spec fn run_model(
        self,
        code: Seq<u8>,
        function: Seq<char>,
        param: Seq<u8>,
        budget: u64,
        costs: CostSchedule,
    ) -> RunOutcome;

    /// Compile `bytecode` into a module artifact. Exactly one compilation
    /// attempt is recorded, and how the engine runs modules is unaffected.
    fn compile(&mut self, bytecode: &[u8]) -> (r: Result<Self::Module, String>)
        ensures
            final(self).compile_count() == old(self).compile_count() + 1,
            r is Ok <==> old(self).compile_ok(bytecode@),
            (r matches Ok(m) ==> Self::module_code(m) == bytecode@),
            forall|code: Seq<u8>, function: Seq<char>, param: Seq<u8>, budget: u64, costs:
                CostSchedule|
                #[trigger] final(self).run_model(code, function, param, budget, costs)
                    == old(self).run_model(code, function, param, budget, costs),
    ;

    /// Run the export `function` of `module` on the serialized argument
    /// `param`, granting it `budget`; a successful run never reports more
    /// budget left than it was granted.
    fn run(
        &self,
        module: &Self::Module,
        function: &str,
        param: &[u8],
        budget: u64,
        costs: &CostSchedule,
    ) -> (r: Result<Response, EngineError>)
        ensures
            (match self.run_model(Self::module_code(*module), function@, param@, budget, *costs) {
                RunOutcome::Success { ret, remaining } => {
                    &&& (r matches Ok(resp) && resp.ret@ == ret && resp.remaining_gas == remaining)
                    &&& remaining <= budget
                },
                RunOutcome::Trap => r matches Err(e) && e is Trap,
                RunOutcome::Instantiation => r matches Err(e) && e is Instantiation,
            }),
    ;
}

} // verus!
