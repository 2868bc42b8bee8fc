use vstd::prelude::*;
use vstd::std_specs::convert::FromSpecImpl;
use crate::execution_cost::{CostErrors, CostOverflowingMath, ExecutionCost};

verus! {

/// The exponent of the smallest power of two that is at least `n`
/// (0 for `n <= 1`): a power of two gives its own exponent, anything
/// else rounds up to the next one.
pub open spec fn ceil_log2(n: nat) -> nat
    decreases n,
{
    if n <= 1 {
        0
    } else {
        1 + ceil_log2(n / 2 + n % 2)
    }
}

/// `2` to the power `k`.
pub open spec fn pow2(k: nat) -> nat
    decreases k,
{
    if k == 0 {
        1
    } else {
        2 * pow2((k - 1) as nat)
    }
}

/// A closed-form cost formula over an unsigned input size.
#[derive(Debug, Clone, Copy, PartialEq, Eq, Structural)]
pub enum CostFunctions {
    Constant(u64),
    Linear(u64, u64),
    NLogN(u64, u64),
    LogN(u64, u64),
}

/// `x` lies in the range of `u64`.
pub open spec fn in_u64(x: int) -> bool {
    0 <= x <= u64::MAX
}

impl CostFunctions {
    /// The value of the formula at `input`, or `None` where one of its checked
    /// steps leaves the range of `u64`: `a * input`, then `+ b` (linear);
    /// `log * a`, then `+ b` (log); `log * input`, then `* a`, then `+ b`
    /// (n-log-n); where `log` is `ceil_log2(max(input, 1))`.
    pub open spec fn spec_compute_cost(self, input: u64) -> Option<u64> {
        let n: int = if input == 0 { 1 } else { input as int };
        let log: int = ceil_log2(n as nat) as int;
        match self {
            CostFunctions::Constant(v) => Some(v),
            CostFunctions::Linear(a, b) => {
                if in_u64(a * input) && in_u64(a * input + b) {
                    Some((a * input + b) as u64)
                } else {
                    None
                }
            },
            CostFunctions::LogN(a, b) => {
                if in_u64(log * a) && in_u64(log * a + b) {
                    Some((log * a + b) as u64)
                } else {
                    None
                }
            },
            CostFunctions::NLogN(a, b) => {
                if in_u64(log * input) && in_u64(log * input * a) && in_u64(log * input * a + b) {
                    Some((log * input * a + b) as u64)
                } else {
                    None
                }
            },
        }
    }
}

/// The ceiling of the base-two logarithm of `input`; `None` for zero.
pub fn int_log2(input: u64) -> (r: Option<u64>)
    ensures
        input == 0 ==> r is None,
        input > 0 ==> r == Some(ceil_log2(input as nat) as u64),
        ceil_log2(input as nat) <= 64,
{
    proof {
        lemma_ceil_log2_bound(input);
    }
    if input == 0 {
        return None;
    }
    let mut m: u64 = input;
    let mut k: u64 = 0;
    proof {
        lemma_ceil_log2_bound(m);
    }
    while m > 1
        invariant
            m >= 1,
            k <= 64 - ceil_log2(m as nat),
            k + ceil_log2(m as nat) == ceil_log2(input as nat),
        decreases m,
    {
        proof {
            lemma_ceil_log2_bound(m);
        }
        m = m / 2 + m % 2;
        k = k + 1;
    }
    Some(k)
}

/// No `u64` has a ceiling logarithm above 64.
proof fn lemma_ceil_log2_bound(m: u64)
    ensures
        ceil_log2(m as nat) <= 64,
        m > 1 ==> ceil_log2(m as nat) >= 1,
{
    reveal_with_fuel(pow2, 65);
    assert(pow2(64) == 0x1_0000_0000_0000_0000);
    lemma_ceil_log2_le(m as nat, 64);
}

/// Inputs up to `2^k` have a ceiling logarithm of at most `k`.
proof fn lemma_ceil_log2_le(n: nat, k: nat)
    requires
        n <= pow2(k),
    ensures
        ceil_log2(n) <= k,
    decreases k,
{
    if n > 1 {
        assert(k > 0) by {
            if k == 0 {
                assert(pow2(0) == 1);
            }
        }
        assert(pow2(k) == 2 * pow2((k - 1) as nat));
        lemma_ceil_log2_le(n / 2 + n % 2, (k - 1) as nat);
    }
}

impl CostFunctions {
    /// Evaluates the formula at `input` with checked arithmetic.
    pub fn compute_cost(&self, input: u64) -> (r: Result<u64, CostErrors>)
        ensures
            self.spec_compute_cost(input) matches Some(v) ==> r == Ok::<u64, CostErrors>(v),
            self.spec_compute_cost(input) is None ==> r == Err::<u64, CostErrors>(
                CostErrors::CostOverflow,
            ),
    {
        match self {
            CostFunctions::Constant(val) => Ok(*val),
            CostFunctions::Linear(a, b) => {
                let ax = match a.cost_overflow_mul(input) {
                    Ok(v) => v,
                    Err(e) => return Err(e),
                };
                ax.cost_overflow_add(*b)
            },
            CostFunctions::LogN(a, b) => {
                let n: u64 = if input == 0 { 1 } else { input };
                let log = match int_log2(n) {
                    Some(l) => l,
                    None => return Err(CostErrors::CostOverflow),
                };
                let la = match log.cost_overflow_mul(*a) {
                    Ok(v) => v,
                    Err(e) => return Err(e),
                };
                la.cost_overflow_add(*b)
            },
            CostFunctions::NLogN(a, b) => {
                let n: u64 = if input == 0 { 1 } else { input };
                let log = match int_log2(n) {
                    Some(l) => l,
                    None => return Err(CostErrors::CostOverflow),
                };
                let ln = match log.cost_overflow_mul(input) {
                    Ok(v) => v,
                    Err(e) => return Err(e),
                };
                let lna = match ln.cost_overflow_mul(*a) {
                    Ok(v) => v,
                    Err(e) => return Err(e),
                };
                lna.cost_overflow_add(*b)
            },
        }
    }
}

/// Evaluating a formula depends on nothing but the formula and the input:
/// equal formulas at equal inputs give equal results.
pub proof fn lemma_formula_deterministic(f: CostFunctions, g: CostFunctions, x: u64, y: u64)
    requires
        f == g,
        x == y,
    ensures
        f.spec_compute_cost(x) == g.spec_compute_cost(y),
{
}

/// One formula for each dimension of an `ExecutionCost`.
#[derive(Debug, Clone, Copy, PartialEq, Eq, Structural)]
pub struct SimpleCostSpecification {
    pub write_count: CostFunctions,
    pub write_length: CostFunctions,
    pub read_count: CostFunctions,
    pub read_length: CostFunctions,
    pub runtime: CostFunctions,
}

impl SimpleCostSpecification {
    /// All five formulas have a value at `input`.
    pub open spec fn spec_fits(self, input: u64) -> bool {
        &&& self.runtime.spec_compute_cost(input) is Some
        &&& self.read_count.spec_compute_cost(input) is Some
        &&& self.read_length.spec_compute_cost(input) is Some
        &&& self.write_count.spec_compute_cost(input) is Some
        &&& self.write_length.spec_compute_cost(input) is Some
    }

    /// The cost made of the five formulas' values at `input` (meaningful where `spec_fits` holds).
    pub open spec fn spec_compute_cost(self, input: u64) -> ExecutionCost {
        ExecutionCost {
            runtime: self.runtime.spec_compute_cost(input)->Some_0,
            read_count: self.read_count.spec_compute_cost(input)->Some_0,
            read_length: self.read_length.spec_compute_cost(input)->Some_0,
            write_count: self.write_count.spec_compute_cost(input)->Some_0,
            write_length: self.write_length.spec_compute_cost(input)->Some_0,
        }
    }

    /// A specification that charges `runtime` and nothing else.
    pub open spec fn spec_runtime_only(runtime: CostFunctions) -> SimpleCostSpecification {
        SimpleCostSpecification {
            write_length: CostFunctions::Constant(0),
            write_count: CostFunctions::Constant(0),
            read_count: CostFunctions::Constant(0),
            read_length: CostFunctions::Constant(0),
            runtime,
        }
    }

    pub fn runtime_only(runtime: CostFunctions) -> (r: SimpleCostSpecification)
        ensures
            r == SimpleCostSpecification::spec_runtime_only(runtime),
    {
        SimpleCostSpecification {
            write_length: CostFunctions::Constant(0),
            write_count: CostFunctions::Constant(0),
            read_count: CostFunctions::Constant(0),
            read_length: CostFunctions::Constant(0),
            runtime,
        }
    }

    /// Applies `input` to every formula; fails as a whole with `CostOverflow`
    /// if any one of them does.
    pub fn compute_cost(&self, input: u64) -> (r: Result<ExecutionCost, CostErrors>)
        ensures
            self.spec_fits(input) ==> r == Ok::<ExecutionCost, CostErrors>(
                self.spec_compute_cost(input),
            ),
            !self.spec_fits(input) ==> r == Err::<ExecutionCost, CostErrors>(
                CostErrors::CostOverflow,
            ),
    {
        let write_length = match self.write_length.compute_cost(input) {
            Ok(v) => v,
            Err(e) => return Err(e),
        };
        let write_count = match self.write_count.compute_cost(input) {
            Ok(v) => v,
            Err(e) => return Err(e),
        };
        let read_count = match self.read_count.compute_cost(input) {
            Ok(v) => v,
            Err(e) => return Err(e),
        };
        let read_length = match self.read_length.compute_cost(input) {
            Ok(v) => v,
            Err(e) => return Err(e),
        };
        let runtime = match self.runtime.compute_cost(input) {
            Ok(v) => v,
            Err(e) => return Err(e),
        };
        Ok(ExecutionCost { write_length, write_count, read_count, read_length, runtime })
    }
}

impl From<ExecutionCost> for SimpleCostSpecification {
    /// The specification whose every formula is the constant of that dimension.
    fn from(value: ExecutionCost) -> (r: SimpleCostSpecification)
        ensures
            r == (SimpleCostSpecification {
                write_length: CostFunctions::Constant(value.write_length),
                write_count: CostFunctions::Constant(value.write_count),
                read_length: CostFunctions::Constant(value.read_length),
                read_count: CostFunctions::Constant(value.read_count),
                runtime: CostFunctions::Constant(value.runtime),
            }),
    {
        SimpleCostSpecification {
            write_length: CostFunctions::Constant(value.write_length),
            write_count: CostFunctions::Constant(value.write_count),
            read_length: CostFunctions::Constant(value.read_length),
            read_count: CostFunctions::Constant(value.read_count),
            runtime: CostFunctions::Constant(value.runtime),
        }
    }
}

impl FromSpecImpl<ExecutionCost> for SimpleCostSpecification {
    open spec fn obeys_from_spec() -> bool {
        true
    }

    open spec fn from_spec(value: ExecutionCost) -> SimpleCostSpecification {
        SimpleCostSpecification {
            write_length: CostFunctions::Constant(value.write_length),
            write_count: CostFunctions::Constant(value.write_count),
            read_length: CostFunctions::Constant(value.read_length),
            read_count: CostFunctions::Constant(value.read_count),
            runtime: CostFunctions::Constant(value.runtime),
        }
    }
}

/// An exact power of two maps to its own exponent.
pub proof fn lemma_ceil_log2_of_power(k: nat)
    ensures
        ceil_log2(pow2(k)) == k,
    decreases k,
{
    if k > 0 {
        lemma_pow2_positive((k - 1) as nat);
        assert(pow2(k) / 2 + pow2(k) % 2 == pow2((k - 1) as nat));
        lemma_ceil_log2_of_power((k - 1) as nat);
    }
}

/// Every value strictly between `2^k` and `2^(k+1)`, and `2^(k+1)` itself,
/// rounds up to the exponent `k + 1`.
pub proof fn lemma_ceil_log2_rounds_up(k: nat, n: nat)
    requires
        pow2(k) < n <= pow2(k + 1),
    ensures
        ceil_log2(n) == k + 1,
    decreases k,
{
    lemma_pow2_positive(k);
    assert(pow2(k + 1) == 2 * pow2(k));
    if k == 0 {
        assert(n == 2);
        assert(ceil_log2(1) == 0);
    } else {
        let h = n / 2 + n % 2;
        assert(pow2(k) == 2 * pow2((k - 1) as nat));
        assert(pow2((k - 1) as nat) < h <= pow2(k));
        lemma_ceil_log2_rounds_up((k - 1) as nat, h);
    }
}

proof fn lemma_pow2_positive(k: nat)
    ensures
        pow2(k) >= 1,
    decreases k,
{
    if k > 0 {
        lemma_pow2_positive((k - 1) as nat);
    }
}

} // verus!
