use vstd::prelude::*;
use vstd::slice::slice_to_vec;
use vstd::string::{StrSliceExecFns, StringExecFns};

use crate::interface::HostInterface;
use crate::types::CostSchedule;

verus! {

/// One deployed module: its address and its stored bytecode.
pub struct ModuleEntry {
    pub address: String,
    pub bytecode: Vec<u8>,
}

/// The bytecode stored under the first entry whose address is `address`,
/// if any entry carries that address.
pub open spec fn lookup_bytecode(entries: Seq<ModuleEntry>, address: Seq<char>) -> Option<
    Seq<u8>,
>
    decreases entries.len(),
{
    if entries.len() == 0 {
        None
    } else if entries[0].address@ == address {
        Some(entries[0].bytecode@)
    } else {
        lookup_bytecode(entries.skip(1), address)
    }
}

/// Compare two strings by their character sequences.
pub fn str_eq(a: &str, b: &str) -> (r: bool)
    ensures
        r == (a@ == b@),
{
    let a_len = a.unicode_len();
    let b_len = b.unicode_len();
    if a_len != b_len {
        return false;
    }
    let mut i: usize = 0;
    while i < a_len
        invariant
            a_len == a@.len(),
            b_len == b@.len(),
            a_len == b_len,
            i <= a_len,
            forall|j: int| 0 <= j < i ==> a@[j] == b@[j],
        decreases a_len - i,
    {
        if a.get_char(i) != b.get_char(i) {
            return false;
        }
        i = i + 1;
    }
    proof {
        assert(a@ =~= b@);
    }
    true
}

proof fn lemma_lookup_skip_one(entries: Seq<ModuleEntry>, address: Seq<char>, i: int)
    requires
        0 <= i < entries.len(),
        entries[i].address@ != address,
    ensures
        lookup_bytecode(entries.skip(i), address) == lookup_bytecode(entries.skip(i + 1), address),
{
    assert(entries.skip(i)[0] == entries[i]);
    assert(entries.skip(i).skip(1) =~= entries.skip(i + 1));
}

/// Deterministic, in-memory host interface: a table of deployed modules, a
/// caller balance that call initiation draws transfers from, a queue of
/// addresses that module creation assigns in order, and a count of the
/// finish-call notifications accepted so far.
pub struct InMemoryHost {
    /// deployed modules, resolved by first matching address
    pub modules: Vec<ModuleEntry>,
    /// balance available to the caller for value transfers
    pub balance: u64,
    /// addresses the next module creations will assign, front first
    pub pending_addresses: Vec<String>,
    /// the cost schedule this host exposes
    pub costs: CostSchedule,
    /// finish-call notifications accepted so far
    pub finished: u64,
}

impl InMemoryHost {
    /// An empty host with the given caller balance and cost schedule.
    pub fn new(balance: u64, costs: CostSchedule) -> (h: Self)
        ensures
            h.modules@.len() == 0,
            h.balance == balance,
            h.pending_addresses@.len() == 0,
            h.costs == costs,
            h.finished == 0,
    {
        InMemoryHost {
            modules: Vec::new(),
            balance,
            pending_addresses: Vec::new(),
            costs,
            finished: 0,
        }
    }

    /// Deploy `bytecode` at `address`, making it resolvable by remote calls.
    pub fn deploy(&mut self, address: String, bytecode: Vec<u8>)
        ensures
            final(self).modules@ == old(self).modules@.push(ModuleEntry { address, bytecode }),
            final(self).balance == old(self).balance,
            final(self).pending_addresses == old(self).pending_addresses,
            final(self).costs == old(self).costs,
            final(self).finished == old(self).finished,
    {
        self.modules.push(ModuleEntry { address, bytecode });
    }

    /// Queue `address` to be assigned by the next module creation.
    pub fn queue_address(&mut self, address: String)
        ensures
            final(self).pending_addresses@ == old(self).pending_addresses@.push(address),
            final(self).modules == old(self).modules,
            final(self).balance == old(self).balance,
            final(self).costs == old(self).costs,
            final(self).finished == old(self).finished,
    {
        self.pending_addresses.push(address);
    }

    /// The stored bytecode of the first module deployed at `address`.
    fn find_bytecode(&self, address: &str) -> (r: Option<Vec<u8>>)
        ensures
            (r is Some <==> lookup_bytecode(self.modules@, address@) is Some),
            (r matches Some(code) ==> Some(code@) == lookup_bytecode(self.modules@, address@)),
    {
        let n = self.modules.len();
        let mut i: usize = 0;
        proof {
            assert(self.modules@.skip(0) =~= self.modules@);
        }
        while i < n
            invariant
                n == self.modules@.len(),
                i <= n,
                lookup_bytecode(self.modules@, address@) == lookup_bytecode(
                    self.modules@.skip(i as int),
                    address@,
                ),
            decreases n - i,
        {
            if str_eq(self.modules[i].address.as_str(), address) {
                proof {
                    assert(self.modules@.skip(i as int)[0] == self.modules@[i as int]);
                }
                return Some(slice_to_vec(self.modules[i].bytecode.as_slice()));
            }
            proof {
                lemma_lookup_skip_one(self.modules@, address@, i as int);
            }
            i = i + 1;
        }
        proof {
            assert(self.modules@.skip(n as int).len() == 0);
        }
        None
    }
}

impl HostInterface for InMemoryHost {
    open spec fn finish_count(self) -> nat {
        self.finished as nat
    }

    open spec fn init_call_ok(self, address: Seq<char>, coins: u64) -> bool {
        lookup_bytecode(self.modules@, address) is Some && coins <= self.balance
    }

    open spec fn init_call_bytecode(self, address: Seq<char>, coins: u64) -> Seq<u8> {
        match lookup_bytecode(self.modules@, address) {
            Some(code) => code,
            None => Seq::empty(),
        }
    }

    open spec fn finish_call_ok(self) -> bool {
        self.finished < u64::MAX
    }

    open spec fn create_module_ok(self, bytecode: Seq<u8>) -> bool {
        self.pending_addresses@.len() > 0
    }

    open spec fn create_module_address(self, bytecode: Seq<u8>) -> Seq<char> {
        if self.pending_addresses@.len() > 0 {
            self.pending_addresses@[0]@
        } else {
            Seq::empty()
        }
    }

    open spec fn schedule(self) -> CostSchedule {
        self.costs
    }

    fn init_call(&mut self, address: &str, coins: u64) -> (r: Result<Vec<u8>, String>) {
        let code = match self.find_bytecode(address) {
            Some(code) => code,
            None => {
                return Err(String::from_str("unknown address"));
            },
        };
        if coins > self.balance {
            return Err(String::from_str("insufficient balance for the transfer"));
        }
        self.balance = self.balance - coins;
        Ok(code)
    }

    fn finish_call(&mut self) -> (r: Result<(), String>) {
        if self.finished == u64::MAX {
            return Err(String::from_str("finish-call bookkeeping exhausted"));
        }
        self.finished = self.finished + 1;
        Ok(())
    }

    fn create_module(&mut self, bytecode: &[u8]) -> (r: Result<String, String>) {
        if self.pending_addresses.len() == 0 {
            return Err(String::from_str("no address is queued for module creation"));
        }
        let address = self.pending_addresses.remove(0);
        let assigned = String::from_str(address.as_str());
        self.modules.push(ModuleEntry { address, bytecode: slice_to_vec(bytecode) });
        Ok(assigned)
    }

    fn cost_schedule(&self) -> (costs: CostSchedule) {
        self.costs
    }
}

} // verus!
