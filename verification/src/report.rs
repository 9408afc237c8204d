//! Threshold reports over pre-aggregated figures: a view count against a threshold, and
//! a market's resolution flag.
use vstd::prelude::*;
use crate::digest::{hex_digit, hex_digit_str};

verus! {

/// A report of whether a metric was met, with its figures rendered as text.
#[derive(Debug, Clone, PartialEq, Eq)]
pub struct VerificationResult {
    pub metric_met: bool,
    pub actual_value: String,
    pub threshold: String,
    pub evidence: String,
    pub timestamp: u64,
}

/// The fixed report time: 2025-01-01T00:00:00Z in Unix seconds. It is a constant, not a
/// reading of any clock.
pub open spec fn report_timestamp() -> u64 {
    1735689600
}

/// Decimal digits of a number, without leading zeros.
pub open spec fn decimal(n: nat) -> Seq<char>
    decreases n,
{
    if n < 10 {
        seq![hex_digit(n)]
    } else {
        decimal(n / 10) + seq![hex_digit(n % 10)]
    }
}

/// Renders a number in decimal.
pub fn decimal_string(n: u64) -> (s: String)
    ensures
        s@ == decimal(n as nat),
    decreases n,
{
    if n < 10 {
        hex_digit_str(n as u8).to_owned()
    } else {
        let mut s = decimal_string(n / 10);
        s.append(hex_digit_str((n % 10) as u8));
        s
    }
}

/// The time stamped on reports.
pub fn get_current_timestamp() -> (t: u64)
    ensures
        t == report_timestamp(),
{
    1735689600
}

/// Report on an account's views in a week: met when the total is strictly more than
/// the threshold.
pub fn verify_x_account_views(
    account: &str,
    week_start: &str,
    week_end: &str,
    threshold: u64,
    total_views: u64,
    posts_analyzed: u32,
) -> (r: VerificationResult)
    ensures
        r.metric_met == (total_views > threshold),
        r.actual_value@ == decimal(total_views as nat),
        r.threshold@ == decimal(threshold as nat),
        r.evidence@ == "Posts analyzed: "@ + decimal(posts_analyzed as nat) + ", Week: "@
            + week_start@ + " to "@ + week_end@,
        r.timestamp == report_timestamp(),
{
    let mut evidence = "Posts analyzed: ".to_owned();
    evidence.append(decimal_string(posts_analyzed as u64).as_str());
    evidence.append(", Week: ");
    evidence.append(week_start);
    evidence.append(" to ");
    evidence.append(week_end);
    VerificationResult {
        metric_met: total_views > threshold,
        actual_value: decimal_string(total_views),
        threshold: decimal_string(threshold),
        evidence,
        timestamp: get_current_timestamp(),
    }
}

/// Report on a market: met when it resolved and the resolution is `YES`, with the
/// reported resolution as the value.
pub fn verify_prediction_market(
    market_address: &str,
    market_question: &str,
    resolved: bool,
    resolution: &str,
) -> (r: VerificationResult)
    ensures
        r.metric_met == (resolved && resolution@ == "YES"@),
        r.actual_value@ == resolution@,
        r.threshold@ == "true"@,
        r.evidence@ == "Market: "@ + market_address@ + ", Question: "@ + market_question@,
        r.timestamp == report_timestamp(),
{
    let mut evidence = "Market: ".to_owned();
    evidence.append(market_address);
    evidence.append(", Question: ");
    evidence.append(market_question);
    let actual_value = resolution.to_owned();
    let yes = "YES".to_owned();
    let metric_met = resolved && actual_value == yes;
    VerificationResult {
        metric_met,
        actual_value,
        threshold: "true".to_owned(),
        evidence,
        timestamp: get_current_timestamp(),
    }
}

} // verus!
