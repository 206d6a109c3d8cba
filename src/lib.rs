//! Checks JSON documents produced by a generation step against a declared
//! contract of shape and content rules, and reports a verdict.

pub mod contract;
pub mod engine;
pub mod json;
pub mod laws;
pub mod pattern;

pub use contract::{parse_contract, parse_rule, Contract, ContractError, OutputType, Rule};
pub use engine::{
    evaluate, exit_code, failure_verdict, to_public_verdict, to_public_violation,
    validate_contract, verify, RunError, Verdict, VerdictStatus, Violation,
};
pub use json::{json_equal, value_type_label, JsonNumber, JsonValue, ValueType};
