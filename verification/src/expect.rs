//! Expectations retained by a verifier, and the comparison of a journal against one.
use vstd::prelude::*;
use vstd::utf8::encode_utf8;
use crate::checks::require;
use crate::digest::{commitment, commitment_of, is_lower_hex_byte, is_lower_sha256_hex};
use crate::model::{strings_view, Expectation, Input, Journal, Metric, Outcome, Policy, SpecPolicy, Summary, SCHEMA_VERSION};
use crate::policy::policy_check;
use crate::rules::{evaluate, evidence_domain, policy_domain, rules};

verus! {

fn copy_strings(v: &Vec<String>) -> (r: Vec<String>)
    ensures
        strings_view(r@) == strings_view(v@),
{
    let r = v.clone();
    proof {
        assert(r@ =~= v@);
    }
    r
}

fn copy_metric(m: &Metric) -> (r: Metric)
    ensures
        r@ == m@,
{
    match m {
        Metric::SocialViews { account, window_start, window_end, views_must_exceed } => {
            Metric::SocialViews {
                account: account.clone(),
                window_start: *window_start,
                window_end: *window_end,
                views_must_exceed: *views_must_exceed,
            }
        },
        Metric::MarketResolution { market_id, question } => Metric::MarketResolution {
            market_id: market_id.clone(),
            question: question.clone(),
        },
        Metric::ParticipantSurvey {
            community_id,
            survey_id,
            question_ids,
            minimum_respondents,
            positive_answers_bps,
            positive_respondents_bps,
        } => Metric::ParticipantSurvey {
            community_id: community_id.clone(),
            survey_id: survey_id.clone(),
            question_ids: copy_strings(question_ids),
            minimum_respondents: *minimum_respondents,
            positive_answers_bps: *positive_answers_bps,
            positive_respondents_bps: *positive_respondents_bps,
        },
    }
}

fn copy_policy(p: &Policy) -> (r: Policy)
    ensures
        r@ == p@,
{
    Policy {
        schema_version: p.schema_version,
        run_id: p.run_id.clone(),
        metric: copy_metric(&p.metric),
    }
}

/// Evaluate the input and keep what a verifier retains: the policy and the evidence
/// commitment. `policy_json` and `evidence_json` are the serializations of the input's
/// policy and evidence.
pub fn expectation(input: &Input, policy_json: &[u8], evidence_json: &[u8]) -> (r: Result<
    Expectation,
    String,
>)
    ensures
        match r {
            Ok(x) => {
                &&& rules(input@) is Ok
                &&& x.policy@ == input.policy@
                &&& x.evidence_sha256@ == commitment_of(evidence_domain(), evidence_json@)
                &&& is_lower_sha256_hex(encode_utf8(x.evidence_sha256@))
            },
            Err(e) => rules(input@) == Err::<(Outcome, Summary), _>(e@),
        },
{
    let journal = evaluate(input, policy_json, evidence_json)?;
    Ok(Expectation { policy: copy_policy(&input.policy), evidence_sha256: journal.evidence_sha256 })
}

/// Whether a journal's fields agree with an expectation; otherwise the first problem:
/// the expected policy is invalid, the expected digest is not lowercase SHA-256 hex,
/// the journal version is unsupported, or a digest differs.
pub open spec fn expectation_check(
    schema_version: u32,
    policy_sha256: Seq<char>,
    evidence_sha256: Seq<char>,
    expected_policy: SpecPolicy,
    expected_evidence_sha256: Seq<char>,
    expected_policy_json: Seq<u8>,
) -> Result<(), Seq<char>> {
    match policy_check(expected_policy) {
        Err(e) => Err(e),
        Ok(_) => {
            if !is_lower_sha256_hex(encode_utf8(expected_evidence_sha256)) {
                Err("expected evidence digest must be lowercase SHA-256 hex"@)
            } else if schema_version != SCHEMA_VERSION {
                Err("unsupported journal version"@)
            } else if policy_sha256 != commitment_of(policy_domain(), expected_policy_json) {
                Err("receipt does not match expected policy"@)
            } else if evidence_sha256 != expected_evidence_sha256 {
                Err("receipt does not match expected evidence"@)
            } else {
                Ok(())
            }
        },
    }
}

fn lower_sha256_hex(s: &String) -> (b: bool)
    ensures
        b == is_lower_sha256_hex(encode_utf8(s@)),
{
    let bytes = s.as_str().as_bytes();
    if bytes.len() != 64 {
        return false;
    }
    for i in 0..64
        invariant
            bytes@.len() == 64,
            bytes@ == encode_utf8(s@),
            forall|k: int| 0 <= k < i ==> is_lower_hex_byte(#[trigger] bytes@[k]),
    {
        let c = bytes[i];
        if !((48 <= c && c <= 57) || (97 <= c && c <= 102)) {
            return false;
        }
    }
    true
}

/// Compare commitments only. This does not authenticate the journal; callers must
/// first verify its cryptographic receipt. `expected_policy_json` is the serialization
/// of `expected.policy`.
pub fn check_expectation(
    journal: &Journal,
    expected: &Expectation,
    expected_policy_json: &[u8],
) -> (r: Result<(), String>)
    ensures
        match r {
            Ok(_) => expectation_check(
                journal.schema_version,
                journal.policy_sha256@,
                journal.evidence_sha256@,
                expected.policy@,
                expected.evidence_sha256@,
                expected_policy_json@,
            ) is Ok,
            Err(e) => expectation_check(
                journal.schema_version,
                journal.policy_sha256@,
                journal.evidence_sha256@,
                expected.policy@,
                expected.evidence_sha256@,
                expected_policy_json@,
            ) == Err::<(), _>(e@),
        },
{
    expected.policy.validate()?;
    require(
        lower_sha256_hex(&expected.evidence_sha256),
        "expected evidence digest must be lowercase SHA-256 hex",
    )?;
    require(journal.schema_version == SCHEMA_VERSION, "unsupported journal version")?;
    let expected_policy_sha256 = commitment("symbiont/policy/v1", expected_policy_json);
    require(
        journal.policy_sha256 == expected_policy_sha256,
        "receipt does not match expected policy",
    )?;
    require(
        journal.evidence_sha256 == expected.evidence_sha256,
        "receipt does not match expected evidence",
    )
}

} // verus!
