//! Execution-cost metering: overflow-checked cost vectors, cost formulas,
//! the catalog of named cost functions, and the budget tracker that charges them.

pub mod execution_cost;
pub mod formula;
pub mod cost_functions;
pub mod cost_program;
pub mod tracker;
