//! Deterministic rules for checking agent outcome metrics over supplied evidence.
//!
//! Evidence is supplied data; this crate does not authenticate its source.

pub mod checks;
pub mod digest;
pub mod expect;
pub mod laws;
pub mod laws_arith;
pub mod laws_policy;
pub mod model;
pub mod policy;
pub mod report;
pub mod rules;

pub use digest::commitment;
pub use expect::{check_expectation, expectation};
pub use model::{
    Evidence, Expectation, Input, Journal, Metric, Outcome, Policy, Post, Resolution, Respondent,
    Summary, MAX_INPUT_BYTES, MAX_QUESTIONS, MAX_RECORDS, SCHEMA_VERSION,
};
pub use report::{
    get_current_timestamp, verify_prediction_market, verify_x_account_views, VerificationResult,
};
pub use rules::{check_input_size, evaluate};
