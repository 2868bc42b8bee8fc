use vstd::prelude::*;
use crate::execution_cost::{CostErrors, ExecutionCost};

verus! {

/// The decimal digit `d` (for `d < 10`).
pub open spec fn digit_char(d: nat) -> char {
    if d == 0 {
        '0'
    } else if d == 1 {
        '1'
    } else if d == 2 {
        '2'
    } else if d == 3 {
        '3'
    } else if d == 4 {
        '4'
    } else if d == 5 {
        '5'
    } else if d == 6 {
        '6'
    } else if d == 7 {
        '7'
    } else if d == 8 {
        '8'
    } else {
        '9'
    }
}

/// The decimal notation of `n`: most significant digit first, no sign, no leading zeros.
pub open spec fn decimal_digits(n: nat) -> Seq<char>
    decreases n,
{
    if n < 10 {
        seq![digit_char(n)]
    } else {
        decimal_digits(n / 10).push(digit_char(n % 10))
    }
}

/// Relies on `u64`'s `to_string` (its `Display`): the decimal notation of the number.
#[verifier::external_body]
pub(crate) fn decimal_string(n: u64) -> (r: String)
    ensures
        r@ == decimal_digits(n as nat),
{
    n.to_string()
}

/// The value bound to `key` in a list of named entries: the first entry
/// under that name, if any.
pub open spec fn named_lookup<V>(entries: Seq<(String, V)>, key: Seq<char>) -> Option<V>
    decreases entries.len(),
{
    if entries.len() == 0 {
        None
    } else if entries[0].0@ == key {
        Some(entries[0].1)
    } else {
        named_lookup(entries.drop_first(), key)
    }
}

proof fn lemma_named_lookup_suffix<V>(entries: Seq<(String, V)>, key: Seq<char>, i: int)
    requires
        0 <= i < entries.len(),
        entries[i].0@ != key,
    ensures
        named_lookup(entries.subrange(i, entries.len() as int), key) == named_lookup(
            entries.subrange(i + 1, entries.len() as int),
            key,
        ),
{
    let s = entries.subrange(i, entries.len() as int);
    assert(s.drop_first() =~= entries.subrange(i + 1, entries.len() as int));
}

/// The position of the first entry named `key`, if any.
pub fn position_of<V>(entries: &Vec<(String, V)>, key: &String) -> (r: Option<usize>)
    ensures
        r matches Some(i) ==> i < entries@.len() && entries@[i as int].0@ == key@ && named_lookup(
            entries@,
            key@,
        ) == Some(entries@[i as int].1),
        r is None ==> named_lookup(entries@, key@) is None,
{
    let mut i: usize = 0;
    proof {
        assert(entries@.subrange(0, entries@.len() as int) =~= entries@);
    }
    while i < entries.len()
        invariant
            i <= entries@.len(),
            named_lookup(entries@, key@) == named_lookup(
                entries@.subrange(i as int, entries@.len() as int),
                key@,
            ),
        decreases entries@.len() - i,
    {
        if entries[i].0 == *key {
            return Some(i);
        }
        proof {
            lemma_named_lookup_suffix(entries@, key@, i as int);
        }
        i = i + 1;
    }
    None
}

/// A field of a value returned by a cost program.
#[derive(Debug, Clone, Copy, PartialEq, Eq, Structural)]
pub enum FieldValue {
    /// An unsigned integer.
    UInt(u128),
    /// Anything else.
    Other,
}

/// What a cost program evaluated to, as far as pricing reads it.
#[derive(Debug, PartialEq, Eq)]
pub enum EvalValue {
    /// A tuple: its fields by name.
    Tuple(Vec<(String, FieldValue)>),
    /// Anything else.
    Other,
}

/// The `u64` held by the field named `name`, where it holds an unsigned integer that fits.
pub open spec fn uint_field(entries: Seq<(String, FieldValue)>, name: Seq<char>) -> Option<u64> {
    match named_lookup(entries, name) {
        Some(FieldValue::UInt(v)) => if v <= u64::MAX {
            Some(v as u64)
        } else {
            None
        },
        _ => None,
    }
}

/// The cost that a tuple describes: it must have exactly the five fields
/// `runtime`, `read_count`, `read_length`, `write_count`, `write_length`,
/// each an unsigned integer that fits in a `u64`.
pub open spec fn cost_from_fields(entries: Seq<(String, FieldValue)>) -> Option<ExecutionCost> {
    if entries.len() == 5 && uint_field(entries, "runtime"@) is Some && uint_field(
        entries,
        "read_count"@,
    ) is Some && uint_field(entries, "read_length"@) is Some && uint_field(
        entries,
        "write_count"@,
    ) is Some && uint_field(entries, "write_length"@) is Some {
        Some(
            ExecutionCost {
                runtime: uint_field(entries, "runtime"@)->Some_0,
                read_count: uint_field(entries, "read_count"@)->Some_0,
                read_length: uint_field(entries, "read_length"@)->Some_0,
                write_count: uint_field(entries, "write_count"@)->Some_0,
                write_length: uint_field(entries, "write_length"@)->Some_0,
            },
        )
    } else {
        None
    }
}

/// The cost that an evaluation outcome describes, if it is a well-formed cost tuple.
pub open spec fn spec_parse_cost(eval_result: Result<Option<EvalValue>, String>) -> Option<
    ExecutionCost,
> {
    match eval_result {
        Ok(Some(EvalValue::Tuple(entries))) => cost_from_fields(entries@),
        _ => None,
    }
}

/// The values of the fields named by `keys`, in that order; `None` if any is missing.
pub fn map_gets(entries: &Vec<(String, FieldValue)>, keys: &Vec<String>) -> (r: Option<
    Vec<FieldValue>,
>)
    ensures
        r matches Some(vs) ==> vs@.len() == keys@.len() && forall|i: int|
            0 <= i < keys@.len() ==> named_lookup(entries@, #[trigger] keys@[i]@) == Some(
                vs@[i],
            ),
        r is None ==> exists|i: int|
            0 <= i < keys@.len() && named_lookup(entries@, #[trigger] keys@[i]@) is None,
{
    let mut output: Vec<FieldValue> = Vec::new();
    let mut k: usize = 0;
    while k < keys.len()
        invariant
            k <= keys@.len(),
            output@.len() == k,
            forall|i: int|
                0 <= i < k ==> named_lookup(entries@, #[trigger] keys@[i]@) == Some(output@[i]),
        decreases keys@.len() - k,
    {
        match position_of(entries, &keys[k]) {
            Some(p) => output.push(entries[p].1),
            None => {
                assert(named_lookup(entries@, keys@[k as int]@) is None);
                return None;
            },
        }
        k = k + 1;
    }
    Some(output)
}

/// The `u64` in `v`, where it is an unsigned integer that fits.
fn uint_value(v: FieldValue) -> (r: Option<u64>)
    ensures
        r == (match v {
            FieldValue::UInt(x) => if x <= u64::MAX {
                Some(x as u64)
            } else {
                None
            },
            _ => None,
        }),
{
    match v {
        FieldValue::UInt(x) => if x <= u64::MAX as u128 {
            Some(x as u64)
        } else {
            None
        },
        FieldValue::Other => None,
    }
}

/// `r` is a `CostComputationFailed` error whose message is `msg`.
pub open spec fn failed_with(r: Result<ExecutionCost, CostErrors>, msg: Seq<char>) -> bool {
    r matches Err(CostErrors::CostComputationFailed(m)) && m@ == msg
}

/// What `parse_cost` returns for each evaluation outcome: the cost of a
/// well-formed cost tuple, and otherwise a `CostComputationFailed` error whose
/// message names the fault (an evaluation error's own text included).
pub open spec fn parsed_as(
    eval_result: Result<Option<EvalValue>, String>,
    r: Result<ExecutionCost, CostErrors>,
) -> bool {
    match eval_result {
        Ok(Some(EvalValue::Tuple(entries))) => match cost_from_fields(entries@) {
            Some(c) => r == Ok::<ExecutionCost, CostErrors>(c),
            None => failed_with(r, "Execution Cost tuple does not contain only UInts"@),
        },
        Ok(Some(EvalValue::Other)) => failed_with(
            r,
            "Clarity cost function returned something other than a Cost tuple"@,
        ),
        Ok(None) => failed_with(r, "Clarity cost function returned nothing"@),
        Err(e) => failed_with(r, "Error evaluating result of cost function: "@ + e@),
    }
}

/// Reads the cost out of what a cost program evaluated to.
pub fn parse_cost(eval_result: Result<Option<EvalValue>, String>) -> (r: Result<
    ExecutionCost,
    CostErrors,
>)
    ensures
        parsed_as(eval_result, r),
        spec_parse_cost(eval_result) matches Some(c) ==> r == Ok::<ExecutionCost, CostErrors>(c),
        spec_parse_cost(eval_result) is None ==> r matches Err(
            CostErrors::CostComputationFailed(_),
        ),
{
    match eval_result {
        Ok(Some(EvalValue::Tuple(entries))) => {
            let not_a_cost = String::from_str("Execution Cost tuple does not contain only UInts");
            if entries.len() != 5 {
                return Err(CostErrors::CostComputationFailed(not_a_cost));
            }
            let keys = vec![
                String::from_str("runtime"),
                String::from_str("read_count"),
                String::from_str("read_length"),
                String::from_str("write_count"),
                String::from_str("write_length"),
            ];
            let values = match map_gets(&entries, &keys) {
                Some(vs) => vs,
                None => {
                    return Err(CostErrors::CostComputationFailed(not_a_cost));
                },
            };
            assert(keys@[0]@ == "runtime"@);
            assert(keys@[1]@ == "read_count"@);
            assert(keys@[2]@ == "read_length"@);
            assert(keys@[3]@ == "write_count"@);
            assert(keys@[4]@ == "write_length"@);
            match (
                uint_value(values[0]),
                uint_value(values[1]),
                uint_value(values[2]),
                uint_value(values[3]),
                uint_value(values[4]),
            ) {
                (
                    Some(runtime),
                    Some(read_count),
                    Some(read_length),
                    Some(write_count),
                    Some(write_length),
                ) => Ok(ExecutionCost { runtime, read_count, read_length, write_count, write_length }),
                _ => Err(CostErrors::CostComputationFailed(not_a_cost)),
            }
        },
        Ok(Some(EvalValue::Other)) => Err(
            CostErrors::CostComputationFailed(
                String::from_str("Clarity cost function returned something other than a Cost tuple"),
            ),
        ),
        Ok(None) => Err(
            CostErrors::CostComputationFailed(
                String::from_str("Clarity cost function returned nothing"),
            ),
        ),
        Err(e) => Err(
            CostErrors::CostComputationFailed(
                String::from_str("Error evaluating result of cost function: ").concat(e.as_str()),
            ),
        ),
    }
}

/// `entries` is the tuple form of `c`: the five dimensions as unsigned
/// integers under their names.
pub open spec fn is_cost_tuple_of(entries: Seq<(String, FieldValue)>, c: ExecutionCost) -> bool {
    &&& entries.len() == 5
    &&& entries[0].0@ == "runtime"@ && entries[0].1 == FieldValue::UInt(c.runtime as u128)
    &&& entries[1].0@ == "read_count"@ && entries[1].1 == FieldValue::UInt(c.read_count as u128)
    &&& entries[2].0@ == "read_length"@ && entries[2].1 == FieldValue::UInt(
        c.read_length as u128,
    )
    &&& entries[3].0@ == "write_count"@ && entries[3].1 == FieldValue::UInt(
        c.write_count as u128,
    )
    &&& entries[4].0@ == "write_length"@ && entries[4].1 == FieldValue::UInt(
        c.write_length as u128,
    )
}

impl ExecutionCost {
    /// The tuple form of this cost: the shape a cost program must return.
    pub fn to_cost_tuple(&self) -> (r: EvalValue)
        ensures
            r matches EvalValue::Tuple(entries) && is_cost_tuple_of(entries@, *self),
    {
        let entries = vec![
            (String::from_str("runtime"), FieldValue::UInt(self.runtime as u128)),
            (String::from_str("read_count"), FieldValue::UInt(self.read_count as u128)),
            (String::from_str("read_length"), FieldValue::UInt(self.read_length as u128)),
            (String::from_str("write_count"), FieldValue::UInt(self.write_count as u128)),
            (String::from_str("write_length"), FieldValue::UInt(self.write_length as u128)),
        ];
        EvalValue::Tuple(entries)
    }
}

/// Writing a cost in tuple form and reading it back gives the same cost,
/// for every cost (zero and the maximum included).
pub proof fn lemma_cost_tuple_round_trip(c: ExecutionCost, entries: Seq<(String, FieldValue)>)
    requires
        is_cost_tuple_of(entries, c),
    ensures
        cost_from_fields(entries) == Some(c),
{
    reveal_strlit("runtime");
    reveal_strlit("read_count");
    reveal_strlit("read_length");
    reveal_strlit("write_count");
    reveal_strlit("write_length");
    assert("runtime"@.len() == 7 && "read_count"@.len() == 10 && "read_length"@.len() == 11);
    assert("write_count"@.len() == 11 && "write_length"@.len() == 12);
    assert("write_count"@[0] != "read_length"@[0]);
    assert("runtime"@ != "read_count"@);
    assert("read_length"@ != "runtime"@ && "read_length"@ != "read_count"@);
    assert("write_count"@ != "runtime"@ && "write_count"@ != "read_count"@);
    assert("write_count"@ != "read_length"@);
    assert("write_length"@ != "runtime"@ && "write_length"@ != "read_count"@);
    assert("write_length"@ != "read_length"@ && "write_length"@ != "write_count"@);
    let e1 = entries.drop_first();
    let e2 = e1.drop_first();
    let e3 = e2.drop_first();
    let e4 = e3.drop_first();
    assert(named_lookup(entries, "runtime"@) == Some(entries[0].1));
    assert(named_lookup(e1, "read_count"@) == Some(entries[1].1));
    assert(named_lookup(entries, "read_count"@) == Some(entries[1].1));
    assert(named_lookup(e2, "read_length"@) == Some(entries[2].1));
    assert(named_lookup(e1, "read_length"@) == Some(entries[2].1));
    assert(named_lookup(entries, "read_length"@) == Some(entries[2].1));
    assert(named_lookup(e3, "write_count"@) == Some(entries[3].1));
    assert(named_lookup(e2, "write_count"@) == Some(entries[3].1));
    assert(named_lookup(e1, "write_count"@) == Some(entries[3].1));
    assert(named_lookup(entries, "write_count"@) == Some(entries[3].1));
    assert(named_lookup(e4, "write_length"@) == Some(entries[4].1));
    assert(named_lookup(e3, "write_length"@) == Some(entries[4].1));
    assert(named_lookup(e2, "write_length"@) == Some(entries[4].1));
    assert(named_lookup(e1, "write_length"@) == Some(entries[4].1));
    assert(named_lookup(entries, "write_length"@) == Some(entries[4].1));
}

/// The display form of a cost: a flat object with the five named dimensions in decimal.
pub open spec fn spec_display(c: ExecutionCost) -> Seq<char> {
    "{\"runtime\": "@ + decimal_digits(c.runtime as nat) + ", \"write_length\": "@
        + decimal_digits(c.write_length as nat) + ", \"write_count\": "@ + decimal_digits(
        c.write_count as nat,
    ) + ", \"read_length\": "@ + decimal_digits(c.read_length as nat) + ", \"read_count\": "@
        + decimal_digits(c.read_count as nat) + "}"@
}

impl ExecutionCost {
    /// `{"runtime": R, "write_length": WL, "write_count": WC, "read_length": RL, "read_count": RC}`.
    pub fn to_display_string(&self) -> (r: String)
        ensures
            r@ == spec_display(*self),
    {
        let mut r = String::from_str("{\"runtime\": ");
        r.append(decimal_string(self.runtime).as_str());
        r.append(", \"write_length\": ");
        r.append(decimal_string(self.write_length).as_str());
        r.append(", \"write_count\": ");
        r.append(decimal_string(self.write_count).as_str());
        r.append(", \"read_length\": ");
        r.append(decimal_string(self.read_length).as_str());
        r.append(", \"read_count\": ");
        r.append(decimal_string(self.read_count).as_str());
        r.append("}");
        r
    }
}

} // verus!
