use vstd::prelude::*;

verus! {

/// Why a metered operation could not be charged.
#[derive(Debug, PartialEq, Eq)]
pub enum CostErrors {
    /// A cost function could not be resolved or its program gave no usable cost.
    CostComputationFailed(String),
    /// Some dimension would leave the range of `u64`.
    CostOverflow,
    /// The running total (first) went over the limit (second) in some dimension.
    CostBalanceExceeded(ExecutionCost, ExecutionCost),
    /// The memory counter (first) went over the memory limit (second).
    MemoryBalanceExceeded(u64, u64),
}

/// A five-dimensional resource vector.
#[derive(Debug, Clone, Copy, PartialEq, Eq, Structural)]
pub struct ExecutionCost {
    pub write_length: u64,
    pub write_count: u64,
    pub read_length: u64,
    pub read_count: u64,
    pub runtime: u64,
}

impl ExecutionCost {
    /// Dimension `d` of the vector: runtime, read count, read length, write count, write length.
    pub open spec fn dim(self, d: int) -> u64 {
        if d == 0 {
            self.runtime
        } else if d == 1 {
            self.read_count
        } else if d == 2 {
            self.read_length
        } else if d == 3 {
            self.write_count
        } else {
            self.write_length
        }
    }

    /// The vector whose dimension `d` is `f(d)`.
    pub open spec fn from_dims(f: spec_fn(int) -> u64) -> ExecutionCost {
        ExecutionCost {
            runtime: f(0),
            read_count: f(1),
            read_length: f(2),
            write_count: f(3),
            write_length: f(4),
        }
    }

    /// Every dimension of `self + other` fits in a `u64`.
    pub open spec fn sum_fits(self, other: ExecutionCost) -> bool {
        &&& self.runtime + other.runtime <= u64::MAX
        &&& self.read_count + other.read_count <= u64::MAX
        &&& self.read_length + other.read_length <= u64::MAX
        &&& self.write_count + other.write_count <= u64::MAX
        &&& self.write_length + other.write_length <= u64::MAX
    }

    /// The dimension-wise sum (meaningful where `sum_fits` holds).
    pub open spec fn spec_sum(self, other: ExecutionCost) -> ExecutionCost {
        ExecutionCost::from_dims(|d: int| (self.dim(d) + other.dim(d)) as u64)
    }

    /// No dimension of `other` is larger than the same dimension of `self`.
    pub open spec fn difference_fits(self, other: ExecutionCost) -> bool {
        &&& other.runtime <= self.runtime
        &&& other.read_count <= self.read_count
        &&& other.read_length <= self.read_length
        &&& other.write_count <= self.write_count
        &&& other.write_length <= self.write_length
    }

    /// The dimension-wise difference (meaningful where `difference_fits` holds).
    pub open spec fn spec_difference(self, other: ExecutionCost) -> ExecutionCost {
        ExecutionCost::from_dims(|d: int| (self.dim(d) - other.dim(d)) as u64)
    }

    /// Every dimension times `times` fits in a `u64`.
    pub open spec fn product_fits(self, times: u64) -> bool {
        &&& self.runtime * times <= u64::MAX
        &&& self.read_count * times <= u64::MAX
        &&& self.read_length * times <= u64::MAX
        &&& self.write_count * times <= u64::MAX
        &&& self.write_length * times <= u64::MAX
    }

    /// Every dimension multiplied by `times` (meaningful where `product_fits` holds).
    pub open spec fn spec_product(self, times: u64) -> ExecutionCost {
        ExecutionCost::from_dims(|d: int| (self.dim(d) * times) as u64)
    }

    /// Some dimension of `self` is strictly larger than that of `other`.
    pub open spec fn spec_exceeds(self, other: ExecutionCost) -> bool {
        exists|d: int| 0 <= d < 5 && self.dim(d) > other.dim(d)
    }

    /// The dimension-wise maximum.
    pub open spec fn spec_max(self, other: ExecutionCost) -> ExecutionCost {
        ExecutionCost::from_dims(
            |d: int|
                if self.dim(d) >= other.dim(d) {
                    self.dim(d)
                } else {
                    other.dim(d)
                },
        )
    }
}

/// Checked arithmetic that reports overflow as a cost error.
pub trait CostOverflowingMath<T>: Sized {
    fn cost_overflow_mul(self, other: T) -> Result<T, CostErrors>;

    fn cost_overflow_add(self, other: T) -> Result<T, CostErrors>;

    fn cost_overflow_sub(self, other: T) -> Result<T, CostErrors>;
}

impl CostOverflowingMath<u64> for u64 {
    fn cost_overflow_mul(self, other: u64) -> (r: Result<u64, CostErrors>)
        ensures
            self * other <= u64::MAX ==> r == Ok::<u64, CostErrors>((self * other) as u64),
            self * other > u64::MAX ==> r == Err::<u64, CostErrors>(CostErrors::CostOverflow),
    {
        match self.checked_mul(other) {
            Some(v) => Ok(v),
            None => Err(CostErrors::CostOverflow),
        }
    }

    fn cost_overflow_add(self, other: u64) -> (r: Result<u64, CostErrors>)
        ensures
            self + other <= u64::MAX ==> r == Ok::<u64, CostErrors>((self + other) as u64),
            self + other > u64::MAX ==> r == Err::<u64, CostErrors>(CostErrors::CostOverflow),
    {
        match self.checked_add(other) {
            Some(v) => Ok(v),
            None => Err(CostErrors::CostOverflow),
        }
    }

    fn cost_overflow_sub(self, other: u64) -> (r: Result<u64, CostErrors>)
        ensures
            other <= self ==> r == Ok::<u64, CostErrors>((self - other) as u64),
            other > self ==> r == Err::<u64, CostErrors>(CostErrors::CostOverflow),
    {
        match self.checked_sub(other) {
            Some(v) => Ok(v),
            None => Err(CostErrors::CostOverflow),
        }
    }
}

impl ExecutionCost {
    pub open spec fn spec_zero() -> ExecutionCost {
        ExecutionCost { runtime: 0, write_length: 0, read_count: 0, write_count: 0, read_length: 0 }
    }

    pub open spec fn spec_max_value() -> ExecutionCost {
        ExecutionCost {
            runtime: u64::MAX,
            write_length: u64::MAX,
            read_count: u64::MAX,
            write_count: u64::MAX,
            read_length: u64::MAX,
        }
    }

    pub fn zero() -> (r: ExecutionCost)
        ensures
            r == ExecutionCost::spec_zero(),
            forall|d: int| 0 <= d < 5 ==> r.dim(d) == 0,
    {
        ExecutionCost { runtime: 0, write_length: 0, read_count: 0, write_count: 0, read_length: 0 }
    }

    pub fn max_value() -> (r: ExecutionCost)
        ensures
            r == ExecutionCost::spec_max_value(),
            forall|d: int| 0 <= d < 5 ==> r.dim(d) == u64::MAX,
    {
        ExecutionCost {
            runtime: u64::MAX,
            write_length: u64::MAX,
            read_count: u64::MAX,
            write_count: u64::MAX,
            read_length: u64::MAX,
        }
    }

    /// A cost of `runtime` in the runtime dimension and nothing else.
    pub fn runtime(runtime: u64) -> (r: ExecutionCost)
        ensures
            r.runtime == runtime,
            forall|d: int| 1 <= d < 5 ==> r.dim(d) == 0,
    {
        ExecutionCost { runtime, write_length: 0, read_count: 0, write_count: 0, read_length: 0 }
    }

    pub fn add_runtime(&mut self, runtime: u64) -> (r: Result<(), CostErrors>)
        ensures
            old(self).runtime + runtime <= u64::MAX ==> r is Ok && *final(self) == (ExecutionCost {
                runtime: (old(self).runtime + runtime) as u64,
                ..*old(self)
            }),
            old(self).runtime + runtime > u64::MAX ==> r == Err::<(), CostErrors>(
                CostErrors::CostOverflow,
            ) && *final(self) == *old(self),
    {
        match self.runtime.cost_overflow_add(runtime) {
            Ok(v) => {
                self.runtime = v;
                Ok(())
            },
            Err(e) => Err(e),
        }
    }
    /// Adds `other` dimension by dimension; on overflow nothing changes.
    pub fn add(&mut self, other: &ExecutionCost) -> (r: Result<(), CostErrors>)
        ensures
            old(self).sum_fits(*other) ==> r is Ok && *final(self) == old(self).spec_sum(*other),
            !old(self).sum_fits(*other) ==> r == Err::<(), CostErrors>(CostErrors::CostOverflow)
                && *final(self) == *old(self),
    {
        let runtime = match self.runtime.cost_overflow_add(other.runtime) {
            Ok(v) => v,
            Err(e) => return Err(e),
        };
        let read_count = match self.read_count.cost_overflow_add(other.read_count) {
            Ok(v) => v,
            Err(e) => return Err(e),
        };
        let read_length = match self.read_length.cost_overflow_add(other.read_length) {
            Ok(v) => v,
            Err(e) => return Err(e),
        };
        let write_count = match self.write_count.cost_overflow_add(other.write_count) {
            Ok(v) => v,
            Err(e) => return Err(e),
        };
        let write_length = match self.write_length.cost_overflow_add(other.write_length) {
            Ok(v) => v,
            Err(e) => return Err(e),
        };
        *self = ExecutionCost { runtime, read_count, read_length, write_count, write_length };
        Ok(())
    }

    /// Subtracts `other` dimension by dimension; on underflow nothing changes.
    pub fn sub(&mut self, other: &ExecutionCost) -> (r: Result<(), CostErrors>)
        ensures
            old(self).difference_fits(*other) ==> r is Ok && *final(self) == old(
                self,
            ).spec_difference(*other),
            !old(self).difference_fits(*other) ==> r == Err::<(), CostErrors>(
                CostErrors::CostOverflow,
            ) && *final(self) == *old(self),
    {
        let runtime = match self.runtime.cost_overflow_sub(other.runtime) {
            Ok(v) => v,
            Err(e) => return Err(e),
        };
        let read_count = match self.read_count.cost_overflow_sub(other.read_count) {
            Ok(v) => v,
            Err(e) => return Err(e),
        };
        let read_length = match self.read_length.cost_overflow_sub(other.read_length) {
            Ok(v) => v,
            Err(e) => return Err(e),
        };
        let write_count = match self.write_count.cost_overflow_sub(other.write_count) {
            Ok(v) => v,
            Err(e) => return Err(e),
        };
        let write_length = match self.write_length.cost_overflow_sub(other.write_length) {
            Ok(v) => v,
            Err(e) => return Err(e),
        };
        *self = ExecutionCost { runtime, read_count, read_length, write_count, write_length };
        Ok(())
    }

    /// Multiplies every dimension by `times`; on overflow nothing changes.
    pub fn multiply(&mut self, times: u64) -> (r: Result<(), CostErrors>)
        ensures
            old(self).product_fits(times) ==> r is Ok && *final(self) == old(self).spec_product(
                times,
            ),
            !old(self).product_fits(times) ==> r == Err::<(), CostErrors>(
                CostErrors::CostOverflow,
            ) && *final(self) == *old(self),
    {
        let runtime = match self.runtime.cost_overflow_mul(times) {
            Ok(v) => v,
            Err(e) => return Err(e),
        };
        let read_count = match self.read_count.cost_overflow_mul(times) {
            Ok(v) => v,
            Err(e) => return Err(e),
        };
        let read_length = match self.read_length.cost_overflow_mul(times) {
            Ok(v) => v,
            Err(e) => return Err(e),
        };
        let write_count = match self.write_count.cost_overflow_mul(times) {
            Ok(v) => v,
            Err(e) => return Err(e),
        };
        let write_length = match self.write_length.cost_overflow_mul(times) {
            Ok(v) => v,
            Err(e) => return Err(e),
        };
        *self = ExecutionCost { runtime, read_count, read_length, write_count, write_length };
        Ok(())
    }

    /// Whether any dimension of `self` is strictly larger than that of `other`.
    pub fn exceeds(&self, other: &ExecutionCost) -> (r: bool)
        ensures
            r == self.spec_exceeds(*other),
    {
        let r = self.runtime > other.runtime || self.write_length > other.write_length
            || self.write_count > other.write_count || self.read_count > other.read_count
            || self.read_length > other.read_length;
        proof {
            if self.runtime > other.runtime {
                assert(self.dim(0) > other.dim(0));
            } else if self.read_count > other.read_count {
                assert(self.dim(1) > other.dim(1));
            } else if self.read_length > other.read_length {
                assert(self.dim(2) > other.dim(2));
            } else if self.write_count > other.write_count {
                assert(self.dim(3) > other.dim(3));
            } else if self.write_length > other.write_length {
                assert(self.dim(4) > other.dim(4));
            }
        }
        r
    }

    /// The dimension-wise maximum of two costs.
    pub fn max_cost(first: ExecutionCost, second: ExecutionCost) -> (r: ExecutionCost)
        ensures
            r == first.spec_max(second),
    {
        ExecutionCost {
            runtime: if first.runtime >= second.runtime { first.runtime } else { second.runtime },
            write_length: if first.write_length >= second.write_length {
                first.write_length
            } else {
                second.write_length
            },
            write_count: if first.write_count >= second.write_count {
                first.write_count
            } else {
                second.write_count
            },
            read_count: if first.read_count >= second.read_count {
                first.read_count
            } else {
                second.read_count
            },
            read_length: if first.read_length >= second.read_length {
                first.read_length
            } else {
                second.read_length
            },
        }
    }
}

} // verus!
