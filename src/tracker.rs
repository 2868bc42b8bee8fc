use vstd::prelude::*;
use crate::cost_functions::ClarityCostFunction;
use crate::cost_program::{
    decimal_digits, decimal_string, failed_with, named_lookup, parse_cost, parsed_as,
    position_of, EvalValue,
};
use crate::execution_cost::{CostErrors, CostOverflowingMath, ExecutionCost};

verus! {

/// The memory ceiling of every tracker.
pub const CLARITY_MEMORY_LIMIT: u64 = 100 * 1000 * 1000;

/// Where a program-defined cost function lives: a contract and one of its
/// exported functions.
#[derive(Debug, Clone, PartialEq, Eq)]
pub struct ClarityCostFunctionReference {
    pub contract_id: String,
    pub function_name: String,
}

impl ClarityCostFunctionReference {
    pub fn new(id: String, name: String) -> (r: ClarityCostFunctionReference)
        ensures
            r.contract_id == id,
            r.function_name == name,
    {
        ClarityCostFunctionReference { contract_id: id, function_name: name }
    }
}

/// A value that occupies tracked memory.
pub trait MemoryConsumer {
    fn get_memory_use(&self) -> u64;
}

/// `evaluator` may be called with any contract id and program, provided the
/// tracker it is handed for the nested run is free.
///
/// An evaluator is the interpreter that runs a cost program: it parses the
/// program as code of the contract and evaluates it against a fresh in-memory
/// store, accounting for the nested run with the tracker it is handed alone.
pub open spec fn accepts_sandboxed<E: FnOnce(String, String, LimitedCostTracker) -> Result<Option<EvalValue>, String>>(evaluator: E) -> bool {
    forall|id: String, program: String, t: LimitedCostTracker|
        t.spec_free() ==> #[trigger] evaluator.requires((id, program, t))
}

/// The text of a call to a cost function: the contract's source followed by
/// `(name)` or `(name uN)`, `N` being the input in decimal.
pub open spec fn spec_cost_program(source: Seq<char>, function_name: Seq<char>, input: Option<u64>) -> Seq<char> {
    match input {
        Some(size) => source + "("@ + function_name + " u"@ + decimal_digits(size as nat) + ")"@,
        None => source + "("@ + function_name + ")"@,
    }
}

/// The reference bound to `f` in a reference table: the first entry for it, if any.
pub open spec fn reference_lookup(
    entries: Seq<(ClarityCostFunction, ClarityCostFunctionReference)>,
    f: ClarityCostFunction,
) -> Option<ClarityCostFunctionReference>
    decreases entries.len(),
{
    if entries.len() == 0 {
        None
    } else if entries[0].0 == f {
        Some(entries[0].1)
    } else {
        reference_lookup(entries.drop_first(), f)
    }
}

/// Accounts for the cost and memory used by one execution context.
#[derive(Debug, Clone, PartialEq)]
pub struct LimitedCostTracker {
    cost_function_references: Vec<(ClarityCostFunction, ClarityCostFunctionReference)>,
    cost_contracts: Vec<(String, String)>,
    total: ExecutionCost,
    limit: ExecutionCost,
    memory: u64,
    memory_limit: u64,
    free: bool,
}

impl LimitedCostTracker {
    pub closed spec fn spec_total(&self) -> ExecutionCost {
        self.total
    }

    pub closed spec fn spec_limit(&self) -> ExecutionCost {
        self.limit
    }

    pub closed spec fn spec_memory(&self) -> u64 {
        self.memory
    }

    pub closed spec fn spec_memory_limit(&self) -> u64 {
        self.memory_limit
    }

    /// A free tracker accounts for nothing.
    pub closed spec fn spec_free(&self) -> bool {
        self.free
    }

    /// The contract function that prices `f`, if one is set.
    pub closed spec fn spec_reference(&self, f: ClarityCostFunction) -> Option<
        ClarityCostFunctionReference,
    > {
        reference_lookup(self.cost_function_references@, f)
    }

    /// The cached source of the contract `id`, if any.
    pub closed spec fn spec_contract(&self, id: Seq<char>) -> Option<String> {
        named_lookup(self.cost_contracts@, id)
    }

    /// This tracker with its running total replaced by `total`.
    pub closed spec fn with_total(self, total: ExecutionCost) -> LimitedCostTracker {
        LimitedCostTracker { total, ..self }
    }

    /// This tracker with its memory counter replaced by `memory`.
    pub closed spec fn with_memory(self, memory: u64) -> LimitedCostTracker {
        LimitedCostTracker { memory, ..self }
    }

    /// Both the reference for `f` and the source of its contract are known.
    pub open spec fn resolves(&self, f: ClarityCostFunction) -> bool {
        &&& self.spec_reference(f) is Some
        &&& self.spec_contract(self.spec_reference(f)->Some_0.contract_id@) is Some
    }

    /// `self` and `other` have the same limits, free flag, reference table and
    /// cached contracts.
    pub open spec fn same_setup(self, other: LimitedCostTracker) -> bool {
        &&& self.spec_limit() == other.spec_limit()
        &&& self.spec_memory_limit() == other.spec_memory_limit()
        &&& self.spec_free() == other.spec_free()
        &&& forall|f: ClarityCostFunction| #[trigger] self.spec_reference(f) == other.spec_reference(f)
        &&& forall|id: Seq<char>| #[trigger] self.spec_contract(id) == other.spec_contract(id)
    }

    /// Charging `cost` to a tracker that is not free, as the new running total
    /// and the result: overflow keeps the old total; otherwise the new total is
    /// kept, and is an error where it exceeds the limit in some dimension.
    pub open spec fn charged(self, cost: ExecutionCost) -> (ExecutionCost, Result<(), CostErrors>) {
        if !self.spec_total().sum_fits(cost) {
            (self.spec_total(), Err(CostErrors::CostOverflow))
        } else {
            let t = self.spec_total().spec_sum(cost);
            (
                t,
                if t.spec_exceeds(self.spec_limit()) {
                    Err(CostErrors::CostBalanceExceeded(t, self.spec_limit()))
                } else {
                    Ok(())
                },
            )
        }
    }

    /// `add_cost` as the new running total and the result: a free tracker takes
    /// any cost and keeps its total.
    pub open spec fn spec_charge(self, cost: ExecutionCost) -> (ExecutionCost, Result<(), CostErrors>) {
        if self.spec_free() {
            (self.spec_total(), Ok(()))
        } else {
            self.charged(cost)
        }
    }

    /// Reserving `memory` on a tracker that is not free, as the new counter and
    /// the result: overflow keeps the old counter; otherwise the new counter is
    /// kept, and is an error where it exceeds the memory limit.
    pub open spec fn reserved(self, memory: u64) -> (u64, Result<(), CostErrors>) {
        if self.spec_memory() + memory > u64::MAX {
            (self.spec_memory(), Err(CostErrors::CostOverflow))
        } else {
            let m = (self.spec_memory() + memory) as u64;
            (
                m,
                if m > self.spec_memory_limit() {
                    Err(CostErrors::MemoryBalanceExceeded(m, self.spec_memory_limit()))
                } else {
                    Ok(())
                },
            )
        }
    }

    /// `add_memory` as the new counter and the result: a free tracker takes any
    /// amount and keeps its counter.
    pub open spec fn spec_reserve(self, memory: u64) -> (u64, Result<(), CostErrors>) {
        if self.spec_free() {
            (self.spec_memory(), Ok(()))
        } else {
            self.reserved(memory)
        }
    }

    /// The tracker that a charge on a tracker that is not free leaves, with the result.
    pub open spec fn charge_outcome(self, cost: ExecutionCost) -> (
        LimitedCostTracker,
        Result<(), CostErrors>,
    ) {
        (self.with_total(self.charged(cost).0), self.charged(cost).1)
    }

    /// The tracker that `add_cost` leaves, with the result.
    pub open spec fn spec_add_cost(self, cost: ExecutionCost) -> (
        LimitedCostTracker,
        Result<(), CostErrors>,
    ) {
        if self.spec_free() {
            (self, Ok(()))
        } else {
            self.charge_outcome(cost)
        }
    }

    /// The tracker that a reservation on a tracker that is not free leaves, with the result.
    pub open spec fn reserve_outcome(self, memory: u64) -> (
        LimitedCostTracker,
        Result<(), CostErrors>,
    ) {
        (self.with_memory(self.reserved(memory).0), self.reserved(memory).1)
    }

    /// The tracker that `add_memory` leaves, with the result.
    pub open spec fn spec_add_memory(self, memory: u64) -> (
        LimitedCostTracker,
        Result<(), CostErrors>,
    ) {
        if self.spec_free() {
            (self, Ok(()))
        } else {
            self.reserve_outcome(memory)
        }
    }

    /// The memory counter after `drop_memory` (where `memory` does not exceed it).
    pub open spec fn spec_released(self, memory: u64) -> u64 {
        if self.spec_free() {
            self.spec_memory()
        } else {
            (self.spec_memory() - memory) as u64
        }
    }

    /// The tracker that `drop_memory` leaves.
    pub open spec fn spec_drop_memory(self, memory: u64) -> LimitedCostTracker {
        if self.spec_free() {
            self
        } else {
            self.with_memory(self.spec_released(memory))
        }
    }

    /// The tracker that `reset_memory` leaves.
    pub open spec fn spec_reset_memory(self) -> LimitedCostTracker {
        if self.spec_free() {
            self
        } else {
            self.with_memory(0)
        }
    }

    /// A tracker with no cost functions bound and nothing consumed.
    pub open spec fn is_fresh(&self, limit: ExecutionCost, free: bool) -> bool {
        &&& self.spec_total() == ExecutionCost::spec_zero()
        &&& self.spec_limit() == limit
        &&& self.spec_memory() == 0
        &&& self.spec_memory_limit() == CLARITY_MEMORY_LIMIT
        &&& self.spec_free() == free
        &&& forall|f: ClarityCostFunction| #[trigger] self.spec_reference(f) is None
        &&& forall|id: Seq<char>| #[trigger] self.spec_contract(id) is None
    }

    pub fn new(limit: ExecutionCost) -> (r: LimitedCostTracker)
        ensures
            r.is_fresh(limit, false),
    {
        LimitedCostTracker {
            cost_function_references: Vec::new(),
            cost_contracts: Vec::new(),
            limit,
            memory_limit: CLARITY_MEMORY_LIMIT,
            total: ExecutionCost::zero(),
            memory: 0,
            free: false,
        }
    }

    pub fn new_max_limit() -> (r: LimitedCostTracker)
        ensures
            r.is_fresh(ExecutionCost::spec_max_value(), false),
    {
        LimitedCostTracker {
            cost_function_references: Vec::new(),
            cost_contracts: Vec::new(),
            limit: ExecutionCost::max_value(),
            total: ExecutionCost::zero(),
            memory: 0,
            memory_limit: CLARITY_MEMORY_LIMIT,
            free: false,
        }
    }

    pub fn new_free() -> (r: LimitedCostTracker)
        ensures
            r.is_fresh(ExecutionCost::spec_max_value(), true),
    {
        LimitedCostTracker {
            cost_function_references: Vec::new(),
            cost_contracts: Vec::new(),
            limit: ExecutionCost::max_value(),
            total: ExecutionCost::zero(),
            memory: 0,
            memory_limit: CLARITY_MEMORY_LIMIT,
            free: true,
        }
    }

    pub fn get_total(&self) -> (r: ExecutionCost)
        ensures
            r == self.spec_total(),
    {
        self.total
    }

    /// Overwrites the running total, leaving everything else, memory included, as it was.
    pub fn set_total(&mut self, total: ExecutionCost)
        ensures
            *final(self) == old(self).with_total(total),
            final(self).spec_total() == total,
            final(self).spec_memory() == old(self).spec_memory(),
            final(self).same_setup(*old(self)),
    {
        self.total = total;
    }

    pub fn get_limit(&self) -> (r: ExecutionCost)
        ensures
            r == self.spec_limit(),
    {
        self.limit
    }

    pub fn get_memory(&self) -> (r: u64)
        ensures
            r == self.spec_memory(),
    {
        self.memory
    }

    pub fn get_memory_limit(&self) -> (r: u64)
        ensures
            r == self.spec_memory_limit(),
    {
        self.memory_limit
    }

    pub fn is_free(&self) -> (r: bool)
        ensures
            r == self.spec_free(),
    {
        self.free
    }
}

/// Replacing the running total changes nothing else, and replacing the memory
/// counter changes nothing else.
pub proof fn lemma_replaced_fields(t: LimitedCostTracker, total: ExecutionCost, memory: u64)
    ensures
        t.with_total(total).spec_total() == total,
        t.with_total(total).spec_memory() == t.spec_memory(),
        t.with_total(total).same_setup(t),
        t.with_memory(memory).spec_memory() == memory,
        t.with_memory(memory).spec_total() == t.spec_total(),
        t.with_memory(memory).same_setup(t),
{
}

impl LimitedCostTracker {
    /// Binds `f` to the contract function `reference`, replacing any earlier binding.
    pub fn set_cost_function_reference(
        &mut self,
        f: ClarityCostFunction,
        reference: ClarityCostFunctionReference,
    )
        ensures
            final(self).spec_reference(f) == Some(reference),
            forall|g: ClarityCostFunction|
                g != f ==> #[trigger] final(self).spec_reference(g) == old(self).spec_reference(g),
            forall|id: Seq<char>| #[trigger] final(self).spec_contract(id) == old(self).spec_contract(id),
            final(self).spec_total() == old(self).spec_total(),
            final(self).spec_limit() == old(self).spec_limit(),
            final(self).spec_memory() == old(self).spec_memory(),
            final(self).spec_memory_limit() == old(self).spec_memory_limit(),
            final(self).spec_free() == old(self).spec_free(),
    {
        self.cost_function_references.insert(0, (f, reference));
        proof {
            assert(self.cost_function_references@.drop_first() =~= old(
                self,
            ).cost_function_references@);
        }
    }

    /// Caches the source of the contract `id`, replacing any earlier source.
    pub fn cache_cost_contract(&mut self, id: String, source: String)
        ensures
            final(self).spec_contract(id@) == Some(source),
            forall|other: Seq<char>|
                other != id@ ==> #[trigger] final(self).spec_contract(other) == old(
                    self,
                ).spec_contract(other),
            forall|g: ClarityCostFunction| #[trigger] final(self).spec_reference(g) == old(self).spec_reference(g),
            final(self).spec_total() == old(self).spec_total(),
            final(self).spec_limit() == old(self).spec_limit(),
            final(self).spec_memory() == old(self).spec_memory(),
            final(self).spec_memory_limit() == old(self).spec_memory_limit(),
            final(self).spec_free() == old(self).spec_free(),
    {
        self.cost_contracts.insert(0, (id, source));
        proof {
            assert(self.cost_contracts@.drop_first() =~= old(self).cost_contracts@);
        }
    }

    /// The position of the binding of `f` in the reference table.
    fn reference_position(&self, f: ClarityCostFunction) -> (r: Option<usize>)
        ensures
            r matches Some(i) ==> i < self.cost_function_references@.len()
                && self.spec_reference(f) == Some(self.cost_function_references@[i as int].1),
            r is None ==> self.spec_reference(f) is None,
    {
        let ghost entries = self.cost_function_references@;
        let mut i: usize = 0;
        proof {
            assert(entries.subrange(0, entries.len() as int) =~= entries);
        }
        while i < self.cost_function_references.len()
            invariant
                entries == self.cost_function_references@,
                i <= entries.len(),
                reference_lookup(entries, f) == reference_lookup(
                    entries.subrange(i as int, entries.len() as int),
                    f,
                ),
            decreases entries.len() - i,
        {
            if self.cost_function_references[i].0 == f {
                return Some(i);
            }
            proof {
                let s = entries.subrange(i as int, entries.len() as int);
                assert(s.drop_first() =~= entries.subrange(i + 1, entries.len() as int));
            }
            i = i + 1;
        }
        None
    }

    /// The contract to run and the call to evaluate in order to price `cost_function`
    /// at `input`.
    pub fn cost_program(&self, cost_function: ClarityCostFunction, input: Option<u64>) -> (r:
        Result<(String, String), CostErrors>)
        ensures
            self.spec_reference(cost_function) is None ==> (r matches Err(
                CostErrors::CostComputationFailed(m),
            ) && m@ == "CostFunction not defined"@),
            self.spec_reference(cost_function) is Some && !self.resolves(cost_function) ==> (r matches Err(
                CostErrors::CostComputationFailed(m),
            ) && m@ == "Cost Contract not cached"@),
            self.resolves(cost_function) ==> (r matches Ok((id, program)) && id@
                == self.spec_reference(cost_function)->Some_0.contract_id@ && program@
                == spec_cost_program(
                self.spec_contract(self.spec_reference(cost_function)->Some_0.contract_id@)->Some_0@,
                self.spec_reference(cost_function)->Some_0.function_name@,
                input,
            )),
    {
        let i = match self.reference_position(cost_function) {
            Some(i) => i,
            None => {
                return Err(
                    CostErrors::CostComputationFailed(String::from_str("CostFunction not defined")),
                );
            },
        };
        let reference = &self.cost_function_references[i].1;
        let j = match position_of(&self.cost_contracts, &reference.contract_id) {
            Some(j) => j,
            None => {
                return Err(
                    CostErrors::CostComputationFailed(String::from_str("Cost Contract not cached")),
                );
            },
        };
        let mut program = self.cost_contracts[j].1.clone();
        program.append("(");
        program.append(reference.function_name.as_str());
        match input {
            Some(size) => {
                program.append(" u");
                let digits = decimal_string(size);
                program.append(digits.as_str());
            },
            None => {},
        }
        program.append(")");
        Ok((reference.contract_id.clone(), program))
    }
}

impl LimitedCostTracker {
    /// What pricing `f` at `input` gives on a tracker that is not free: an
    /// error naming the lookup that missed, or else the result of `parse_cost`
    /// on what `evaluator` answered when it was handed the contract id, the
    /// call of the cost function (`spec_cost_program`) and a fresh free tracker.
    pub open spec fn spec_evaluated<E: FnOnce(String, String, LimitedCostTracker) -> Result<Option<EvalValue>, String>>(
        self,
        evaluator: E,
        f: ClarityCostFunction,
        input: Option<u64>,
        r: Result<ExecutionCost, CostErrors>,
    ) -> bool {
        if self.spec_reference(f) is None {
            failed_with(r, "CostFunction not defined"@)
        } else if !self.resolves(f) {
            failed_with(r, "Cost Contract not cached"@)
        } else {
            let reference = self.spec_reference(f)->Some_0;
            exists|
                id: String,
                program: String,
                sandbox: LimitedCostTracker,
                out: Result<Option<EvalValue>, String>,
            |
                #[trigger] evaluator.ensures((id, program, sandbox), out) && id@
                    == reference.contract_id@ && program@ == spec_cost_program(
                    self.spec_contract(reference.contract_id@)->Some_0@,
                    reference.function_name@,
                    input,
                ) && sandbox.is_fresh(ExecutionCost::spec_max_value(), true) && parsed_as(out, r)
        }
    }

    /// What `compute_cost` gives: zero on a free tracker, else `spec_evaluated`.
    pub open spec fn spec_computed<E: FnOnce(String, String, LimitedCostTracker) -> Result<Option<EvalValue>, String>>(
        self,
        evaluator: E,
        f: ClarityCostFunction,
        input: Option<u64>,
        r: Result<ExecutionCost, CostErrors>,
    ) -> bool {
        if self.spec_free() {
            r == Ok::<ExecutionCost, CostErrors>(ExecutionCost::spec_zero())
        } else {
            self.spec_evaluated(evaluator, f, input, r)
        }
    }

    /// The tracker and result after handing the outcome `computed` of a
    /// pricing to `add_cost`: a cost is charged, an error is passed on.
    pub open spec fn spec_charge_computed(self, computed: Result<ExecutionCost, CostErrors>) -> (
        LimitedCostTracker,
        Result<(), CostErrors>,
    ) {
        match computed {
            Ok(cost) => self.spec_add_cost(cost),
            Err(e) => (self, Err(e)),
        }
    }

    /// `spec_charge_computed` as the new running total and the result.
    pub open spec fn spec_charge_result(self, computed: Result<ExecutionCost, CostErrors>) -> (
        ExecutionCost,
        Result<(), CostErrors>,
    ) {
        match computed {
            Ok(cost) => self.spec_charge(cost),
            Err(e) => (self.spec_total(), Err(e)),
        }
    }
}

/// Prices `cost_function` at `input` by running its cost program in a sandbox
/// that has a fresh free tracker of its own, never `cost_tracker`.
pub fn compute_cost<E: FnOnce(String, String, LimitedCostTracker) -> Result<Option<EvalValue>, String>>(
    cost_tracker: &LimitedCostTracker,
    evaluator: E,
    cost_function: ClarityCostFunction,
    input: Option<u64>,
) -> (r: Result<ExecutionCost, CostErrors>)
    requires
        accepts_sandboxed(evaluator),
    ensures
        cost_tracker.spec_evaluated(evaluator, cost_function, input, r),
        r is Err ==> r matches Err(CostErrors::CostComputationFailed(_)),
{
    let (contract_id, program) = match cost_tracker.cost_program(cost_function, input) {
        Ok(p) => p,
        Err(e) => return Err(e),
    };
    let sandbox = LimitedCostTracker::new_free();
    let ghost id = contract_id;
    let ghost text = program;
    let ghost tracker = sandbox;
    let eval_result = evaluator(contract_id, program, sandbox);
    let ghost out = eval_result;
    let r = parse_cost(eval_result);
    assert(evaluator.ensures((id, text, tracker), out));
    r
}

/// Charges the outcome of a pricing: a cost goes to `add_cost`, an error is
/// passed on with the tracker left as it was.
pub fn charge_computed(tracker: &mut LimitedCostTracker, computed: Result<ExecutionCost, CostErrors>) -> (r:
    Result<(), CostErrors>)
    ensures
        (*final(tracker), r) == old(tracker).spec_charge_computed(computed),
        (final(tracker).spec_total(), r) == old(tracker).spec_charge_result(computed),
        final(tracker).spec_memory() == old(tracker).spec_memory(),
        final(tracker).same_setup(*old(tracker)),
{
    match computed {
        Ok(cost) => tracker.add_cost(cost),
        Err(e) => Err(e),
    }
}

/// Adds `cost` to the running total of a tracker that is not free.
pub fn add_cost(s: &mut LimitedCostTracker, cost: ExecutionCost) -> (r: Result<(), CostErrors>)
    ensures
        (*final(s), r) == old(s).charge_outcome(cost),
        (final(s).spec_total(), r) == old(s).charged(cost),
        final(s).spec_memory() == old(s).spec_memory(),
        final(s).same_setup(*old(s)),
{
    match s.total.add(&cost) {
        Ok(()) => {},
        Err(e) => return Err(e),
    }
    if s.total.exceeds(&s.limit) {
        Err(CostErrors::CostBalanceExceeded(s.total, s.limit))
    } else {
        Ok(())
    }
}

/// Adds `memory` to the memory counter of a tracker that is not free.
pub fn add_memory(s: &mut LimitedCostTracker, memory: u64) -> (r: Result<(), CostErrors>)
    ensures
        (*final(s), r) == old(s).reserve_outcome(memory),
        (final(s).spec_memory(), r) == old(s).reserved(memory),
        final(s).spec_total() == old(s).spec_total(),
        final(s).same_setup(*old(s)),
{
    s.memory = match s.memory.cost_overflow_add(memory) {
        Ok(m) => m,
        Err(e) => return Err(e),
    };
    if s.memory > s.memory_limit {
        Err(CostErrors::MemoryBalanceExceeded(s.memory, s.memory_limit))
    } else {
        Ok(())
    }
}

/// Releases `memory` from the memory counter of a tracker that is not free.
pub fn drop_memory(s: &mut LimitedCostTracker, memory: u64)
    requires
        memory <= old(s).spec_memory(),
    ensures
        *final(s) == old(s).with_memory((old(s).spec_memory() - memory) as u64),
        final(s).spec_memory() == old(s).spec_memory() - memory,
        final(s).spec_total() == old(s).spec_total(),
        final(s).same_setup(*old(s)),
{
    s.memory = s.memory - memory;
}

/// What every metered subsystem holds while a program executes.
pub trait CostTracker: Sized {
    /// `drop_memory(memory)` may be called: the memory was reserved before.
    spec fn releasable(&self, memory: u64) -> bool;

    /// The cost of `cost_function` at `input`; does not charge it.
    fn compute_cost<E: FnOnce(String, String, LimitedCostTracker) -> Result<Option<EvalValue>, String>>(
        &mut self,
        evaluator: E,
        cost_function: ClarityCostFunction,
        input: Option<u64>,
    ) -> Result<ExecutionCost, CostErrors>
        requires
            accepts_sandboxed(evaluator),
    ;

    /// Charges `cost` to the running total.
    fn add_cost(&mut self, cost: ExecutionCost) -> Result<(), CostErrors>;

    /// Reserves `memory`.
    fn add_memory(&mut self, memory: u64) -> Result<(), CostErrors>;

    /// Releases `memory` reserved before.
    fn drop_memory(&mut self, memory: u64)
        requires
            old(self).releasable(memory),
    ;

    /// Forgets all reserved memory.
    fn reset_memory(&mut self);
}

/// The tracker that accounts for nothing.
impl CostTracker for () {
    open spec fn releasable(&self, memory: u64) -> bool {
        true
    }

    fn compute_cost<E: FnOnce(String, String, LimitedCostTracker) -> Result<Option<EvalValue>, String>>(
        &mut self,
        evaluator: E,
        cost_function: ClarityCostFunction,
        input: Option<u64>,
    ) -> (r: Result<ExecutionCost, CostErrors>)
        ensures
            r == Ok::<ExecutionCost, CostErrors>(ExecutionCost::spec_zero()),
    {
        Ok(ExecutionCost::zero())
    }

    fn add_cost(&mut self, cost: ExecutionCost) -> (r: Result<(), CostErrors>)
        ensures
            r is Ok,
    {
        Ok(())
    }

    fn add_memory(&mut self, memory: u64) -> (r: Result<(), CostErrors>)
        ensures
            r is Ok,
    {
        Ok(())
    }

    fn drop_memory(&mut self, memory: u64) {
    }

    fn reset_memory(&mut self) {
    }
}

impl CostTracker for LimitedCostTracker {
    open spec fn releasable(&self, memory: u64) -> bool {
        self.spec_free() || memory <= self.spec_memory()
    }

    fn compute_cost<E: FnOnce(String, String, LimitedCostTracker) -> Result<Option<EvalValue>, String>>(
        &mut self,
        evaluator: E,
        cost_function: ClarityCostFunction,
        input: Option<u64>,
    ) -> (r: Result<ExecutionCost, CostErrors>)
        ensures
            *final(self) == *old(self),
            old(self).spec_computed(evaluator, cost_function, input, r),
            r is Err ==> r matches Err(CostErrors::CostComputationFailed(_)),
    {
        if self.free {
            return Ok(ExecutionCost::zero());
        }
        compute_cost(self, evaluator, cost_function, input)
    }

    fn add_cost(&mut self, cost: ExecutionCost) -> (r: Result<(), CostErrors>)
        ensures
            (*final(self), r) == old(self).spec_add_cost(cost),
            (final(self).spec_total(), r) == old(self).spec_charge(cost),
            final(self).spec_memory() == old(self).spec_memory(),
            final(self).same_setup(*old(self)),
    {
        if self.free {
            return Ok(());
        }
        add_cost(self, cost)
    }

    fn add_memory(&mut self, memory: u64) -> (r: Result<(), CostErrors>)
        ensures
            (*final(self), r) == old(self).spec_add_memory(memory),
            (final(self).spec_memory(), r) == old(self).spec_reserve(memory),
            final(self).spec_total() == old(self).spec_total(),
            final(self).same_setup(*old(self)),
    {
        if self.free {
            return Ok(());
        }
        add_memory(self, memory)
    }

    fn drop_memory(&mut self, memory: u64)
        ensures
            *final(self) == old(self).spec_drop_memory(memory),
            final(self).spec_memory() == old(self).spec_released(memory),
            final(self).spec_total() == old(self).spec_total(),
            final(self).same_setup(*old(self)),
    {
        if !self.free {
            drop_memory(self, memory)
        }
    }

    fn reset_memory(&mut self)
        ensures
            *final(self) == old(self).spec_reset_memory(),
            final(self).spec_memory() == (if old(self).spec_free() {
                old(self).spec_memory()
            } else {
                0
            }),
            final(self).spec_total() == old(self).spec_total(),
            final(self).same_setup(*old(self)),
    {
        if !self.free {
            self.memory = 0;
        }
    }
}

/// Prices `cost_function` at `input` and charges the result to `tracker`.
pub fn runtime_cost<E: FnOnce(String, String, LimitedCostTracker) -> Result<Option<EvalValue>, String>>(
    cost_function: ClarityCostFunction,
    tracker: &mut LimitedCostTracker,
    evaluator: E,
    input: Option<u64>,
) -> (r: Result<(), CostErrors>)
    requires
        accepts_sandboxed(evaluator),
    ensures
        exists|computed: Result<ExecutionCost, CostErrors>|
            #[trigger] old(tracker).spec_computed(evaluator, cost_function, input, computed)
                && (*final(tracker), r) == old(tracker).spec_charge_computed(computed) && (
                final(tracker).spec_total(),
                r,
            ) == old(tracker).spec_charge_result(computed),
        final(tracker).spec_memory() == old(tracker).spec_memory(),
        final(tracker).same_setup(*old(tracker)),
{
    let ghost before = *tracker;
    let cost_result = tracker.compute_cost(evaluator, cost_function, input);
    let ghost computed = cost_result;
    let r = charge_computed(tracker, cost_result);
    assert(before.spec_computed(evaluator, cost_function, input, computed));
    r
}

/// The size at which the type check of two types is priced: the larger of
/// their sizes, or `CostOverflow` where a size could not be computed.
pub open spec fn spec_typecheck_size(t1_size: Option<u64>, t2_size: Option<u64>) -> Result<u64, CostErrors> {
    match (t1_size, t2_size) {
        (Some(a), Some(b)) => Ok(if a >= b { a } else { b }),
        _ => Err(CostErrors::CostOverflow),
    }
}

pub fn typecheck_size(t1_size: Option<u64>, t2_size: Option<u64>) -> (r: Result<u64, CostErrors>)
    ensures
        r == spec_typecheck_size(t1_size, t2_size),
{
    match (t1_size, t2_size) {
        (Some(a), Some(b)) => Ok(if a >= b { a } else { b }),
        _ => Err(CostErrors::CostOverflow),
    }
}

/// Charges the type check of two types whose sizes are `t1_size` and `t2_size`
/// (`None` where a size could not be computed): the check is priced at the
/// larger size.
pub fn analysis_typecheck_cost<E: FnOnce(String, String, LimitedCostTracker) -> Result<Option<EvalValue>, String>>(
    track: &mut LimitedCostTracker,
    evaluator: E,
    t1_size: Option<u64>,
    t2_size: Option<u64>,
) -> (r: Result<(), CostErrors>)
    requires
        accepts_sandboxed(evaluator),
    ensures
        spec_typecheck_size(t1_size, t2_size) is Err ==> r == Err::<(), CostErrors>(
            CostErrors::CostOverflow,
        ) && *final(track) == *old(track),
        spec_typecheck_size(t1_size, t2_size) matches Ok(size) ==> exists|
            computed: Result<ExecutionCost, CostErrors>,
        |
            #[trigger] old(track).spec_computed(
                evaluator,
                ClarityCostFunction::AnalysisTypeCheck,
                Some(size),
                computed,
            ) && (*final(track), r) == old(track).spec_charge_computed(computed) && (
                final(track).spec_total(),
                r,
            ) == old(track).spec_charge_result(computed),
        final(track).spec_memory() == old(track).spec_memory(),
        final(track).same_setup(*old(track)),
{
    let size = match typecheck_size(t1_size, t2_size) {
        Ok(s) => s,
        Err(e) => return Err(e),
    };
    runtime_cost(ClarityCostFunction::AnalysisTypeCheck, track, evaluator, Some(size))
}

/// Charging `costs` one after another with `add_cost`, stopping at the first error.
pub open spec fn spec_charge_all(t: LimitedCostTracker, costs: Seq<ExecutionCost>) -> (
    LimitedCostTracker,
    Result<(), CostErrors>,
)
    decreases costs.len(),
{
    if costs.len() == 0 {
        (t, Ok(()))
    } else {
        let (t1, r1) = t.spec_add_cost(costs[0]);
        if r1 is Err {
            (t1, r1)
        } else {
            spec_charge_all(t1, costs.drop_first())
        }
    }
}

/// Dimension `d` summed over `costs`.
pub open spec fn dim_sum(costs: Seq<ExecutionCost>, d: int) -> int
    decreases costs.len(),
{
    if costs.len() == 0 {
        0
    } else {
        costs[0].dim(d) + dim_sum(costs.drop_first(), d)
    }
}

/// After a run of successful charges on a tracker that is not free, the
/// running total is the old total plus the dimension-wise sum of the costs,
/// within the limit in every dimension; nothing else has changed.
pub proof fn lemma_charges_accumulate(t: LimitedCostTracker, costs: Seq<ExecutionCost>)
    requires
        !t.spec_free(),
        spec_charge_all(t, costs).1 is Ok,
    ensures
        forall|d: int|
            0 <= d < 5 ==> #[trigger] spec_charge_all(t, costs).0.spec_total().dim(d)
                == t.spec_total().dim(d) + dim_sum(costs, d),
        costs.len() > 0 ==> !spec_charge_all(t, costs).0.spec_total().spec_exceeds(t.spec_limit()),
        spec_charge_all(t, costs).0 == t.with_total(spec_charge_all(t, costs).0.spec_total()),
        spec_charge_all(t, costs).0.spec_memory() == t.spec_memory(),
        spec_charge_all(t, costs).0.same_setup(t),
    decreases costs.len(),
{
    if costs.len() > 0 {
        let (t1, r1) = t.spec_add_cost(costs[0]);
        lemma_charges_accumulate(t1, costs.drop_first());
        if costs.len() == 1 {
            assert(costs.drop_first().len() == 0);
        }
    }
}

/// Charging one more cost after a successful run is `add_cost` on the tracker that the run left.
pub proof fn lemma_charge_all_push(t: LimitedCostTracker, costs: Seq<ExecutionCost>, c: ExecutionCost)
    requires
        spec_charge_all(t, costs).1 is Ok,
    ensures
        spec_charge_all(t, costs.push(c)) == spec_charge_all(t, costs).0.spec_add_cost(c),
    decreases costs.len(),
{
    if costs.len() == 0 {
        assert(costs.push(c).drop_first() =~= Seq::<ExecutionCost>::empty());
        assert(costs.push(c)[0] == c);
        let (t1, r1) = t.spec_add_cost(c);
        assert(spec_charge_all(t1, costs.push(c).drop_first()) == (t1, Ok::<(), CostErrors>(())));
        if r1 is Ok {
            assert(r1 == Ok::<(), CostErrors>(()));
        }
    } else {
        let (t1, r1) = t.spec_add_cost(costs[0]);
        assert(costs.push(c).drop_first() =~= costs.drop_first().push(c));
        assert(costs.push(c)[0] == costs[0]);
        lemma_charge_all_push(t1, costs.drop_first(), c);
    }
}

/// On a tracker that is not free, the first charge whose partial sum goes
/// over the limit in some dimension fails with `CostBalanceExceeded`, and the
/// over-budget total is kept.
pub proof fn lemma_first_excess_fails(t: LimitedCostTracker, costs: Seq<ExecutionCost>, c: ExecutionCost)
    requires
        !t.spec_free(),
        spec_charge_all(t, costs).1 is Ok,
        forall|d: int| 0 <= d < 5 ==> t.spec_total().dim(d) + dim_sum(costs, d) + c.dim(d) <= u64::MAX,
        exists|d: int| 0 <= d < 5 && t.spec_total().dim(d) + dim_sum(costs, d) + c.dim(d) > t.spec_limit().dim(d),
    ensures
        forall|d: int|
            0 <= d < 5 ==> #[trigger] spec_charge_all(t, costs.push(c)).0.spec_total().dim(d)
                == t.spec_total().dim(d) + dim_sum(costs, d) + c.dim(d),
        spec_charge_all(t, costs.push(c)).1 == Err::<(), CostErrors>(
            CostErrors::CostBalanceExceeded(
                spec_charge_all(t, costs.push(c)).0.spec_total(),
                t.spec_limit(),
            ),
        ),
{
    lemma_charges_accumulate(t, costs);
    lemma_charge_all_push(t, costs, c);
    let tk = spec_charge_all(t, costs).0;
    let d0 = choose|d: int| 0 <= d < 5 && t.spec_total().dim(d) + dim_sum(costs, d) + c.dim(d) > t.spec_limit().dim(d);
    assert(tk.spec_total().dim(0) + c.dim(0) <= u64::MAX);
    assert(tk.spec_total().dim(1) + c.dim(1) <= u64::MAX);
    assert(tk.spec_total().dim(2) + c.dim(2) <= u64::MAX);
    assert(tk.spec_total().dim(3) + c.dim(3) <= u64::MAX);
    assert(tk.spec_total().dim(4) + c.dim(4) <= u64::MAX);
    let total = tk.spec_total().spec_sum(c);
    assert(total.dim(d0) > t.spec_limit().dim(d0));
}

/// Once a dimension of the total is over the limit, every further charge on
/// a tracker that is not free fails, and that dimension stays over the limit.
pub proof fn lemma_exhausted_stays_exhausted(t: LimitedCostTracker, c: ExecutionCost, d: int)
    requires
        !t.spec_free(),
        0 <= d < 5,
        t.spec_total().dim(d) > t.spec_limit().dim(d),
    ensures
        t.spec_add_cost(c).1 is Err,
        t.spec_add_cost(c).0.spec_total().dim(d) > t.spec_add_cost(c).0.spec_limit().dim(d),
{
    if t.spec_total().sum_fits(c) {
        let total = t.spec_total().spec_sum(c);
        assert(total.dim(d) > t.spec_limit().dim(d));
    }
}

/// A free tracker takes every charge, reservation and release and stays as
/// it was: its total and memory never move from where they started (zero,
/// for `new_free`).
pub proof fn lemma_free_tracker_unaffected(
    t: LimitedCostTracker,
    costs: Seq<ExecutionCost>,
    memory: u64,
)
    requires
        t.spec_free(),
    ensures
        spec_charge_all(t, costs) == (t, Ok::<(), CostErrors>(())),
        t.spec_add_memory(memory) == (t, Ok::<(), CostErrors>(())),
        t.spec_drop_memory(memory) == t,
        t.spec_reset_memory() == t,
    decreases costs.len(),
{
    if costs.len() > 0 {
        lemma_free_tracker_unaffected(t, costs.drop_first(), memory);
    }
}

} // verus!
