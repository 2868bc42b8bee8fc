use clarity_costs::cost_functions::{ClarityCostFunction, COST_FUNCTION_COUNT};
use clarity_costs::cost_program::{map_gets, parse_cost, EvalValue, FieldValue};
use clarity_costs::execution_cost::{CostErrors, CostOverflowingMath, ExecutionCost};
use clarity_costs::formula::{int_log2, CostFunctions, SimpleCostSpecification};
use clarity_costs::tracker::{
    add_cost, analysis_typecheck_cost, runtime_cost, ClarityCostFunctionReference,
    typecheck_size, CostTracker, LimitedCostTracker, CLARITY_MEMORY_LIMIT,
};

const BOOT_COSTS_ID: &str = "ST000000000000000000002AMW42H.boot_costs";
const BOOT_COSTS_SOURCE: &str = ";; boot cost contract\n";

/// Stands in for the interpreter: prices the called function by its
/// closed-form specification, and records every program it was asked to run.
struct CatalogEvaluator {
    programs: Vec<String>,
    sandbox_was_free: bool,
}

impl CatalogEvaluator {
    fn new() -> Self {
        CatalogEvaluator { programs: vec![], sandbox_was_free: true }
    }

    fn run(&mut self) -> impl FnOnce(String, String, LimitedCostTracker) -> Result<Option<EvalValue>, String> + '_ {
        move |_contract_id, program, tracker| self.evaluate(program, tracker)
    }

    fn evaluate(&mut self, program: String, tracker: LimitedCostTracker) -> Result<Option<EvalValue>, String> {
        self.programs.push(program.clone());
        self.sandbox_was_free = self.sandbox_was_free && tracker.is_free();
        let call = &program[program.rfind('(').ok_or("no call")? + 1..program.len() - 1];
        let mut parts = call.split(' ');
        let name = parts.next().ok_or("no name")?;
        let input = match parts.next() {
            Some(arg) => arg[1..].parse::<u64>().map_err(|e| e.to_string())?,
            None => 0,
        };
        let f = ClarityCostFunction::lookup_by_name(name).ok_or("unknown function")?;
        match f.builtin_cost_specification().compute_cost(input) {
            Ok(cost) => Ok(Some(cost.to_cost_tuple())),
            Err(_) => Err("overflow".to_string()),
        }
    }
}

/// An evaluator that always hands back `outcome`.
fn fixed(
    outcome: Result<Option<EvalValue>, String>,
) -> impl FnOnce(String, String, LimitedCostTracker) -> Result<Option<EvalValue>, String> {
    move |_, _, _| outcome
}

fn boot_tracker(mut cost_tracker: LimitedCostTracker) -> LimitedCostTracker {
    for f in ClarityCostFunction::all().iter() {
        cost_tracker.set_cost_function_reference(
            *f,
            ClarityCostFunctionReference::new(BOOT_COSTS_ID.to_string(), f.get_name()),
        );
    }
    cost_tracker.cache_cost_contract(BOOT_COSTS_ID.to_string(), BOOT_COSTS_SOURCE.to_string());
    cost_tracker
}

fn cost(runtime: u64, read_count: u64, read_length: u64, write_count: u64, write_length: u64) -> ExecutionCost {
    ExecutionCost { runtime, read_count, read_length, write_count, write_length }
}

fn entries(pairs: &[(&str, FieldValue)]) -> Vec<(String, FieldValue)> {
    pairs.iter().map(|(n, v)| (n.to_string(), *v)).collect()
}

#[test]
fn test_eval_contract_cost() {
    let cost_tracker = LimitedCostTracker::new_max_limit();
    let mut cost_tracker = boot_tracker(cost_tracker);
    let mut evaluator = CatalogEvaluator::new();

    let first = runtime_cost(ClarityCostFunction::StxTransfer, &mut cost_tracker, evaluator.run(), None);
    let second = runtime_cost(ClarityCostFunction::Sub, &mut cost_tracker, evaluator.run(), Some(10));

    assert_eq!(first, Ok(()));
    assert_eq!(second, Ok(()));
    assert_eq!(
        evaluator.programs,
        vec![
            format!("{}(cost_stx_transfer)", BOOT_COSTS_SOURCE),
            format!("{}(cost_sub u10)", BOOT_COSTS_SOURCE),
        ]
    );
    assert!(evaluator.sandbox_was_free);
    assert_eq!(cost_tracker.get_total(), cost(1 + 11, 1, 1, 1, 1));
}

#[test]
fn test_simple_overflows() {
    assert_eq!(u64::MAX.cost_overflow_add(1), Err(CostErrors::CostOverflow));
    assert_eq!(u64::MAX.cost_overflow_mul(2), Err(CostErrors::CostOverflow));
    assert_eq!(CostFunctions::NLogN(1, 1).compute_cost(u64::MAX), Err(CostErrors::CostOverflow));
}

#[test]
fn test_simple_sub() {
    assert_eq!(0u64.cost_overflow_sub(1), Err(CostErrors::CostOverflow));
}

#[test]
fn test_simple_log2s() {
    let inputs = [1, 2, 4, 8, 16, 31, 32, 33, 39, 64, 128, 2_u64.pow(63), u64::MAX];
    let expected = [0, 1, 2, 3, 4, 5, 5, 6, 6, 6, 7, 63, 64];
    for (input, expected) in inputs.iter().zip(expected.iter()) {
        assert_eq!(int_log2(*input).unwrap(), *expected);
    }
}

#[test]
fn log2_of_zero_is_none() {
    assert_eq!(int_log2(0), None);
    assert_eq!(int_log2(3), Some(2));
}

#[test]
fn checked_add_boundary() {
    assert_eq!(u64::MAX.cost_overflow_add(0), Ok(u64::MAX));
    assert_eq!((u64::MAX - 5).cost_overflow_add(5), Ok(u64::MAX));
    assert_eq!((u64::MAX - 5).cost_overflow_add(6), Err(CostErrors::CostOverflow));
    assert_eq!(2u64.cost_overflow_add(3), Ok(5));
    assert_eq!(7u64.cost_overflow_mul(6), Ok(42));
    assert_eq!(7u64.cost_overflow_sub(6), Ok(1));
}

#[test]
fn formulas_exact_values() {
    assert_eq!(CostFunctions::Constant(9).compute_cost(1000), Ok(9));
    assert_eq!(CostFunctions::Linear(2, 3).compute_cost(10), Ok(23));
    assert_eq!(CostFunctions::LogN(3, 4).compute_cost(33), Ok(3 * 6 + 4));
    assert_eq!(CostFunctions::LogN(3, 4).compute_cost(0), Ok(4));
    assert_eq!(CostFunctions::NLogN(2, 1).compute_cost(8), Ok(2 * 8 * 3 + 1));
    assert_eq!(CostFunctions::NLogN(2, 1).compute_cost(0), Ok(1));
    assert_eq!(CostFunctions::Linear(2, 0).compute_cost(u64::MAX), Err(CostErrors::CostOverflow));
    assert_eq!(CostFunctions::Linear(1, 1).compute_cost(u64::MAX), Err(CostErrors::CostOverflow));
    assert_eq!(CostFunctions::LogN(u64::MAX, 0).compute_cost(2), Ok(u64::MAX));
    assert_eq!(CostFunctions::LogN(u64::MAX, 0).compute_cost(3), Err(CostErrors::CostOverflow));
}

#[test]
fn formula_evaluation_is_deterministic() {
    for f in [CostFunctions::Linear(5, 7), CostFunctions::LogN(5, 7), CostFunctions::NLogN(5, 7)] {
        for input in [0u64, 1, 17, 1 << 40] {
            assert_eq!(f.compute_cost(input), f.compute_cost(input));
        }
    }
}

#[test]
fn specification_all_or_nothing() {
    let spec = SimpleCostSpecification {
        write_count: CostFunctions::Constant(1),
        write_length: CostFunctions::Linear(1, 1),
        read_count: CostFunctions::Constant(2),
        read_length: CostFunctions::LogN(1, 0),
        runtime: CostFunctions::NLogN(1, 1),
    };
    assert_eq!(spec.compute_cost(4), Ok(cost(9, 2, 2, 1, 5)));
    assert_eq!(spec.compute_cost(u64::MAX), Err(CostErrors::CostOverflow));
    let constant = SimpleCostSpecification::from(cost(1, 2, 3, 4, 5));
    assert_eq!(constant.compute_cost(77), Ok(cost(1, 2, 3, 4, 5)));
    assert_eq!(
        SimpleCostSpecification::runtime_only(CostFunctions::Linear(1, 1)).compute_cost(4),
        Ok(ExecutionCost::runtime(5))
    );
}

#[test]
fn execution_cost_arithmetic() {
    let mut a = cost(1, 2, 3, 4, 5);
    assert_eq!(a.add(&cost(10, 20, 30, 40, 50)), Ok(()));
    assert_eq!(a, cost(11, 22, 33, 44, 55));
    assert_eq!(a.sub(&cost(1, 2, 3, 4, 5)), Ok(()));
    assert_eq!(a, cost(10, 20, 30, 40, 50));
    assert_eq!(a.multiply(3), Ok(()));
    assert_eq!(a, cost(30, 60, 90, 120, 150));
    assert_eq!(a.add_runtime(5), Ok(()));
    assert_eq!(a, cost(35, 60, 90, 120, 150));

    let before = a;
    assert_eq!(a.add(&cost(0, 0, 0, 0, u64::MAX)), Err(CostErrors::CostOverflow));
    assert_eq!(a, before);
    assert_eq!(a.sub(&cost(0, 61, 0, 0, 0)), Err(CostErrors::CostOverflow));
    assert_eq!(a, before);
    assert_eq!(a.multiply(u64::MAX), Err(CostErrors::CostOverflow));
    assert_eq!(a, before);
    assert_eq!(a.add_runtime(u64::MAX), Err(CostErrors::CostOverflow));
    assert_eq!(a, before);
}

#[test]
fn execution_cost_constructors_and_compare() {
    assert_eq!(ExecutionCost::zero(), cost(0, 0, 0, 0, 0));
    assert_eq!(ExecutionCost::max_value(), cost(u64::MAX, u64::MAX, u64::MAX, u64::MAX, u64::MAX));
    assert_eq!(ExecutionCost::runtime(7), cost(7, 0, 0, 0, 0));
    assert!(!cost(1, 1, 1, 1, 1).exceeds(&cost(1, 1, 1, 1, 1)));
    assert!(cost(1, 1, 1, 1, 2).exceeds(&cost(1, 1, 1, 1, 1)));
    assert!(cost(0, 2, 0, 0, 0).exceeds(&cost(1, 1, 1, 1, 1)));
    assert!(!ExecutionCost::max_value().exceeds(&ExecutionCost::max_value()));
    assert_eq!(
        ExecutionCost::max_cost(cost(1, 9, 3, 0, 5), cost(4, 2, 3, 8, 1)),
        cost(4, 9, 3, 8, 5)
    );
}

#[test]
fn catalog_names_round_trip() {
    let all = ClarityCostFunction::all();
    assert_eq!(all.len(), COST_FUNCTION_COUNT);
    for (i, f) in all.iter().enumerate() {
        assert_eq!(f.index(), i);
        assert_eq!(ClarityCostFunction::from_index(i), Some(*f));
        assert_eq!(ClarityCostFunction::lookup_by_name(&f.get_name()), Some(*f));
    }
    assert_eq!(ClarityCostFunction::ListMap.get_name(), "cost_map");
    assert_eq!(ClarityCostFunction::lookup_by_name("cost_sub"), Some(ClarityCostFunction::Sub));
    assert_eq!(ClarityCostFunction::lookup_by_name("cost_nothing"), None);
    assert_eq!(ClarityCostFunction::from_index(COST_FUNCTION_COUNT), None);
}

#[test]
fn catalog_builtin_specifications() {
    assert_eq!(
        ClarityCostFunction::StxTransfer.builtin_cost_specification().compute_cost(0),
        Ok(cost(1, 1, 1, 1, 1))
    );
    assert_eq!(
        ClarityCostFunction::TupleGet.builtin_cost_specification().compute_cost(8),
        Ok(ExecutionCost::runtime(8 * 3 + 1))
    );
    assert_eq!(
        ClarityCostFunction::SetVar.builtin_cost_specification().compute_cost(10),
        Ok(cost(11, 1, 0, 1, 11))
    );
}

#[test]
fn scenario_linear_charge_over_budget() {
    let limit = cost(100, u64::MAX, u64::MAX, u64::MAX, u64::MAX);
    let mut tracker = LimitedCostTracker::new(limit);
    let linear = SimpleCostSpecification::runtime_only(CostFunctions::Linear(2, 3));

    let first = linear.compute_cost(10).unwrap();
    assert_eq!(first.runtime, 23);
    assert_eq!(tracker.add_cost(first), Ok(()));
    assert_eq!(tracker.get_total().runtime, 23);

    let second = linear.compute_cost(50).unwrap();
    assert_eq!(second.runtime, 103);
    assert_eq!(
        tracker.add_cost(second),
        Err(CostErrors::CostBalanceExceeded(ExecutionCost::runtime(126), limit))
    );
    assert_eq!(tracker.get_total().runtime, 126);
    assert!(matches!(
        tracker.add_cost(ExecutionCost::zero()),
        Err(CostErrors::CostBalanceExceeded(_, _))
    ));
}

#[test]
fn scenario_memory_reserve_and_release() {
    let mut tracker = LimitedCostTracker::new_max_limit();
    assert_eq!(tracker.get_memory_limit(), 100_000_000);
    assert_eq!(tracker.add_memory(1000), Ok(()));
    assert_eq!(tracker.get_memory(), 1000);
    tracker.drop_memory(1000);
    assert_eq!(tracker.get_memory(), 0);
}

#[test]
fn memory_limit_exceeded_is_kept() {
    let mut tracker = LimitedCostTracker::new_max_limit();
    assert_eq!(tracker.add_memory(CLARITY_MEMORY_LIMIT), Ok(()));
    assert_eq!(
        tracker.add_memory(1),
        Err(CostErrors::MemoryBalanceExceeded(CLARITY_MEMORY_LIMIT + 1, CLARITY_MEMORY_LIMIT))
    );
    assert_eq!(tracker.get_memory(), CLARITY_MEMORY_LIMIT + 1);
    assert_eq!(tracker.add_memory(u64::MAX), Err(CostErrors::CostOverflow));
    assert_eq!(tracker.get_memory(), CLARITY_MEMORY_LIMIT + 1);
    tracker.reset_memory();
    assert_eq!(tracker.get_memory(), 0);
}

#[test]
fn charges_accumulate_dimension_wise() {
    let mut tracker = LimitedCostTracker::new(cost(100, 100, 100, 100, 100));
    let costs = [cost(1, 2, 3, 4, 5), cost(10, 0, 10, 0, 10), cost(0, 7, 0, 7, 0)];
    for c in costs.iter() {
        assert_eq!(add_cost(&mut tracker, *c), Ok(()));
    }
    assert_eq!(tracker.get_total(), cost(11, 9, 13, 11, 15));
    assert_eq!(add_cost(&mut tracker, cost(0, 0, 0, 0, u64::MAX)), Err(CostErrors::CostOverflow));
    assert_eq!(tracker.get_total(), cost(11, 9, 13, 11, 15));
    tracker.set_total(ExecutionCost::zero());
    assert_eq!(tracker.get_total(), ExecutionCost::zero());
}

#[test]
fn free_tracker_stays_at_zero() {
    let mut tracker = boot_tracker(LimitedCostTracker::new_free());
    let mut evaluator = CatalogEvaluator::new();
    assert!(tracker.is_free());
    assert_eq!(tracker.add_cost(ExecutionCost::max_value()), Ok(()));
    assert_eq!(tracker.add_cost(ExecutionCost::max_value()), Ok(()));
    assert_eq!(tracker.add_memory(u64::MAX), Ok(()));
    tracker.drop_memory(5);
    tracker.reset_memory();
    assert_eq!(
        tracker.compute_cost(evaluator.run(), ClarityCostFunction::Add, Some(3)),
        Ok(ExecutionCost::zero())
    );
    assert_eq!(runtime_cost(ClarityCostFunction::Add, &mut tracker, evaluator.run(), Some(3)), Ok(()));
    assert!(evaluator.programs.is_empty());
    assert_eq!(tracker.get_total(), ExecutionCost::zero());
    assert_eq!(tracker.get_memory(), 0);
}

#[test]
fn unit_tracker_accepts_everything() {
    let mut unit = ();
    let mut evaluator = CatalogEvaluator::new();
    assert_eq!(unit.compute_cost(evaluator.run(), ClarityCostFunction::Add, None), Ok(ExecutionCost::zero()));
    assert_eq!(unit.add_cost(ExecutionCost::max_value()), Ok(()));
    assert_eq!(unit.add_memory(u64::MAX), Ok(()));
    unit.drop_memory(1);
    unit.reset_memory();
}

#[test]
fn unresolved_cost_functions_fail() {
    let mut evaluator = CatalogEvaluator::new();
    let mut tracker = LimitedCostTracker::new_max_limit();
    assert!(matches!(
        runtime_cost(ClarityCostFunction::Add, &mut tracker, evaluator.run(), Some(1)),
        Err(CostErrors::CostComputationFailed(_))
    ));
    tracker.set_cost_function_reference(
        ClarityCostFunction::Add,
        ClarityCostFunctionReference::new("other.contract".to_string(), "cost_add".to_string()),
    );
    assert!(matches!(
        runtime_cost(ClarityCostFunction::Add, &mut tracker, evaluator.run(), Some(1)),
        Err(CostErrors::CostComputationFailed(_))
    ));
    assert!(evaluator.programs.is_empty());
    tracker.cache_cost_contract("other.contract".to_string(), "(define-read-only (cost_add (n uint)) n)".to_string());
    let (id, program) = tracker.cost_program(ClarityCostFunction::Add, Some(12345)).unwrap();
    assert_eq!(id, "other.contract");
    assert_eq!(program, "(define-read-only (cost_add (n uint)) n)(cost_add u12345)");
    assert_eq!(runtime_cost(ClarityCostFunction::Add, &mut tracker, evaluator.run(), Some(1)), Ok(()));
    assert_eq!(tracker.get_total(), ExecutionCost::runtime(2));
}

#[test]
fn typecheck_cost_uses_larger_size() {
    let mut tracker = boot_tracker(LimitedCostTracker::new_max_limit());
    let mut evaluator = CatalogEvaluator::new();
    assert_eq!(analysis_typecheck_cost(&mut tracker, evaluator.run(), Some(3), Some(40)), Ok(()));
    assert_eq!(evaluator.programs, vec![format!("{}(cost_analysis_type_check u40)", BOOT_COSTS_SOURCE)]);
    assert_eq!(tracker.get_total(), ExecutionCost::runtime(41));
    assert_eq!(analysis_typecheck_cost(&mut tracker, evaluator.run(), None, Some(40)), Err(CostErrors::CostOverflow));
    assert_eq!(tracker.get_total(), ExecutionCost::runtime(41));
}

#[test]
fn cost_tuple_round_trip() {
    for c in [ExecutionCost::zero(), cost(23, 1, 512, 2, 1024), ExecutionCost::max_value()] {
        assert_eq!(parse_cost(Ok(Some(c.to_cost_tuple()))), Ok(c));
    }
}

#[test]
fn parse_cost_rejects_malformed_results() {
    let failed = |r: Result<ExecutionCost, CostErrors>| matches!(r, Err(CostErrors::CostComputationFailed(_)));
    assert!(failed(parse_cost(Ok(None))));
    assert!(failed(parse_cost(Ok(Some(EvalValue::Other)))));
    assert!(failed(parse_cost(Err("boom".to_string()))));
    let four = entries(&[
        ("runtime", FieldValue::UInt(1)),
        ("read_count", FieldValue::UInt(1)),
        ("read_length", FieldValue::UInt(1)),
        ("write_count", FieldValue::UInt(1)),
    ]);
    assert!(failed(parse_cost(Ok(Some(EvalValue::Tuple(four.clone()))))));
    let mut extra = four.clone();
    extra.push(("write_lengths".to_string(), FieldValue::UInt(1)));
    assert!(failed(parse_cost(Ok(Some(EvalValue::Tuple(extra))))));
    let mut not_uint = four.clone();
    not_uint.push(("write_length".to_string(), FieldValue::Other));
    assert!(failed(parse_cost(Ok(Some(EvalValue::Tuple(not_uint))))));
    let mut too_big = four.clone();
    too_big.push(("write_length".to_string(), FieldValue::UInt(u64::MAX as u128 + 1)));
    assert!(failed(parse_cost(Ok(Some(EvalValue::Tuple(too_big))))));
    let mut reordered = four;
    reordered.insert(0, ("write_length".to_string(), FieldValue::UInt(9)));
    assert_eq!(parse_cost(Ok(Some(EvalValue::Tuple(reordered)))), Ok(cost(1, 1, 1, 1, 9)));
    match parse_cost(Err("boom".to_string())) {
        Err(CostErrors::CostComputationFailed(msg)) => assert!(msg.ends_with("boom")),
        other => panic!("unexpected {:?}", other),
    }
}

#[test]
fn evaluator_outcomes_reach_the_tracker() {
    let mut tracker = boot_tracker(LimitedCostTracker::new_max_limit());
    assert!(matches!(
        runtime_cost(ClarityCostFunction::Add, &mut tracker, fixed(Ok(None)), Some(1)),
        Err(CostErrors::CostComputationFailed(_))
    ));
    assert_eq!(tracker.get_total(), ExecutionCost::zero());
    let five = ExecutionCost::runtime(5).to_cost_tuple();
    assert_eq!(runtime_cost(ClarityCostFunction::Add, &mut tracker, fixed(Ok(Some(five))), None), Ok(()));
    assert_eq!(tracker.get_total(), ExecutionCost::runtime(5));
}

#[test]
fn map_gets_in_key_order() {
    let fields = entries(&[("a", FieldValue::UInt(1)), ("b", FieldValue::Other), ("a", FieldValue::UInt(3))]);
    let keys = vec!["b".to_string(), "a".to_string()];
    assert_eq!(map_gets(&fields, &keys), Some(vec![FieldValue::Other, FieldValue::UInt(1)]));
    assert_eq!(map_gets(&fields, &vec!["c".to_string()]), None);
}

#[test]
fn display_string_in_decimal() {
    assert_eq!(
        cost(23, 1, 512, 2, 1024).to_display_string(),
        "{\"runtime\": 23, \"write_length\": 1024, \"write_count\": 2, \"read_length\": 512, \"read_count\": 1}"
    );
    assert_eq!(
        ExecutionCost::max_value().to_display_string(),
        format!(
            "{{\"runtime\": {0}, \"write_length\": {0}, \"write_count\": {0}, \"read_length\": {0}, \"read_count\": {0}}}",
            u64::MAX
        )
    );
}

#[test]
fn typecheck_size_is_larger_size() {
    assert_eq!(typecheck_size(Some(3), Some(9)), Ok(9));
    assert_eq!(typecheck_size(Some(9), Some(3)), Ok(9));
    assert_eq!(typecheck_size(Some(4), Some(4)), Ok(4));
    assert_eq!(typecheck_size(None, Some(3)), Err(CostErrors::CostOverflow));
    assert_eq!(typecheck_size(Some(3), None), Err(CostErrors::CostOverflow));
}

#[test]
fn lookup_misses_and_faults_have_messages() {
    let mut tracker = LimitedCostTracker::new_max_limit();
    let message = |r: Result<(), CostErrors>| match r {
        Err(CostErrors::CostComputationFailed(m)) => m,
        other => panic!("unexpected {:?}", other),
    };
    assert_eq!(
        message(runtime_cost(ClarityCostFunction::Add, &mut tracker, fixed(Ok(None)), None)),
        "CostFunction not defined"
    );
    tracker.set_cost_function_reference(
        ClarityCostFunction::Add,
        ClarityCostFunctionReference::new(BOOT_COSTS_ID.to_string(), "cost_add".to_string()),
    );
    assert_eq!(
        message(runtime_cost(ClarityCostFunction::Add, &mut tracker, fixed(Ok(None)), None)),
        "Cost Contract not cached"
    );
    tracker.cache_cost_contract(BOOT_COSTS_ID.to_string(), BOOT_COSTS_SOURCE.to_string());
    assert_eq!(
        message(runtime_cost(ClarityCostFunction::Add, &mut tracker, fixed(Ok(None)), None)),
        "Clarity cost function returned nothing"
    );
    assert_eq!(
        message(runtime_cost(ClarityCostFunction::Add, &mut tracker, fixed(Ok(Some(EvalValue::Other))), None)),
        "Clarity cost function returned something other than a Cost tuple"
    );
    assert_eq!(
        message(runtime_cost(ClarityCostFunction::Add, &mut tracker, fixed(Err("boom".to_string())), None)),
        "Error evaluating result of cost function: boom"
    );
    assert_eq!(
        message(runtime_cost(
            ClarityCostFunction::Add,
            &mut tracker,
            fixed(Ok(Some(EvalValue::Tuple(vec![])))),
            None
        )),
        "Execution Cost tuple does not contain only UInts"
    );
    assert_eq!(tracker.get_total(), ExecutionCost::zero());
}
