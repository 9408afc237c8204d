use symbiont_core::checks::{text, unique_strings};
use symbiont_core::digest::to_lower_hex;
use symbiont_core::report::decimal_string;
use symbiont_core::{
    check_expectation, check_input_size, commitment, evaluate, expectation,
    get_current_timestamp, verify_prediction_market, verify_x_account_views, Evidence,
    Expectation, Input, Journal, Metric, Outcome, Policy, Post, Resolution, Respondent, Summary,
    MAX_INPUT_BYTES,
};

const TEXT_ERROR: &str =
    "identifiers must be 1–256 bytes without surrounding whitespace or control characters";

fn social_input(views: &[u64]) -> Input {
    Input {
        policy: Policy {
            schema_version: 1,
            run_id: "run-a".to_string(),
            metric: Metric::SocialViews {
                account: "acct".to_string(),
                window_start: 100,
                window_end: 200,
                views_must_exceed: 10,
            },
        },
        evidence: Evidence::SocialViews {
            account: "acct".to_string(),
            posts: views
                .iter()
                .enumerate()
                .map(|(i, v)| Post { id: format!("p{i}"), published_at: 150, views: *v })
                .collect(),
        },
    }
}

fn market_input(resolution: Resolution) -> Input {
    Input {
        policy: Policy {
            schema_version: 1,
            run_id: "run-m".to_string(),
            metric: Metric::MarketResolution {
                market_id: "m-1".to_string(),
                question: "q?".to_string(),
            },
        },
        evidence: Evidence::MarketResolution {
            market_id: "m-1".to_string(),
            question: "q?".to_string(),
            resolution,
        },
    }
}

fn survey_input(answers: Vec<Vec<bool>>, minimum: u32) -> Input {
    let questions = vec!["a".to_string(), "b".to_string()];
    Input {
        policy: Policy {
            schema_version: 1,
            run_id: "run-s".to_string(),
            metric: Metric::ParticipantSurvey {
                community_id: "c".to_string(),
                survey_id: "s".to_string(),
                question_ids: questions.clone(),
                minimum_respondents: minimum,
                positive_answers_bps: 5000,
                positive_respondents_bps: 5000,
            },
        },
        evidence: Evidence::ParticipantSurvey {
            community_id: "c".to_string(),
            survey_id: "s".to_string(),
            question_ids: questions,
            respondents: answers
                .into_iter()
                .enumerate()
                .map(|(i, a)| Respondent { id: format!("r{i}"), consented: true, positive_answers: a })
                .collect(),
        },
    }
}

fn eval(input: &Input) -> Result<Journal, String> {
    evaluate(input, b"policy-bytes", b"evidence-bytes")
}

#[test]
fn commitment_hashes_domain_zero_byte_and_value() {
    assert_eq!(
        commitment("symbiont/policy/v1", b"{}"),
        "654230ebc70d0bb164794ccead0ab8680364bcbebaf9522ef317193006e7b330"
    );
    assert_eq!(
        commitment("", b""),
        "6e340b9cffb37a989ca544e6bb780a2c78901d3fb33738768511a30617afa01d"
    );
    assert_ne!(commitment("a", b"b"), commitment("a", b"c"));
}

#[test]
fn hex_and_decimal_rendering() {
    assert_eq!(to_lower_hex(&[0x00, 0xab, 0x0f, 0xff]), "00ab0fff");
    assert_eq!(to_lower_hex(&[]), "");
    assert_eq!(decimal_string(0), "0");
    assert_eq!(decimal_string(45000), "45000");
    assert_eq!(decimal_string(u64::MAX), "18446744073709551615");
}

#[test]
fn identifier_text_rules() {
    assert!(text("ok").is_ok());
    assert_eq!(text("").unwrap_err(), TEXT_ERROR);
    assert!(text(" lead").is_err());
    assert!(text("trail ").is_err());
    assert!(text("\u{3000}wide").is_err());
    assert!(text("mid dle").is_ok());
    assert!(text("tab\tinside").is_err());
    assert!(text("del\u{7f}").is_err());
    assert!(text("c1\u{85}x").is_err());
    assert!(text(&"x".repeat(256)).is_ok());
    assert!(text(&"x".repeat(257)).is_err());
    assert!(text(&"é".repeat(128)).is_ok());
    assert!(text(&"é".repeat(129)).is_err());
}

#[test]
fn identifier_lists_are_bounded_and_distinct() {
    let list = |v: &[&str]| v.iter().map(|s| s.to_string()).collect::<Vec<_>>();
    assert!(unique_strings(&list(&["a", "b"]), 2).is_ok());
    assert_eq!(unique_strings(&list(&[]), 2).unwrap_err(), "invalid list length");
    assert_eq!(unique_strings(&list(&["a", "b", "c"]), 2).unwrap_err(), "invalid list length");
    assert_eq!(unique_strings(&list(&["a", "a"]), 2).unwrap_err(), "duplicate identifier");
    assert_eq!(unique_strings(&list(&["a", " b"]), 2).unwrap_err(), TEXT_ERROR);
}

#[test]
fn policy_validation_reports_each_problem() {
    let mut p = social_input(&[1]).policy;
    p.schema_version = 2;
    assert_eq!(p.validate().unwrap_err(), "unsupported schema version");
    let mut p = social_input(&[1]).policy;
    p.run_id = String::new();
    assert_eq!(p.validate().unwrap_err(), TEXT_ERROR);
    let mut p = social_input(&[1]).policy;
    if let Metric::SocialViews { window_start, .. } = &mut p.metric {
        *window_start = 200;
    }
    assert_eq!(p.validate().unwrap_err(), "window_start must precede window_end");
    let mut p = survey_input(vec![], 1).policy;
    if let Metric::ParticipantSurvey { minimum_respondents, .. } = &mut p.metric {
        *minimum_respondents = 1001;
    }
    assert_eq!(p.validate().unwrap_err(), "minimum_respondents must be 1–1000");
    let mut p = survey_input(vec![], 1).policy;
    if let Metric::ParticipantSurvey { positive_answers_bps, .. } = &mut p.metric {
        *positive_answers_bps = 0;
    }
    assert_eq!(p.validate().unwrap_err(), "percentage thresholds must be 1–10000 basis points");
    let mut p = survey_input(vec![], 1).policy;
    if let Metric::ParticipantSurvey { question_ids, .. } = &mut p.metric {
        *question_ids = (0..33).map(|i| format!("q{i}")).collect();
    }
    assert_eq!(p.validate().unwrap_err(), "invalid list length");
    assert!(market_input(Resolution::Yes).policy.validate().is_ok());
}

#[test]
fn social_evaluation_reports_each_problem() {
    let ok = eval(&social_input(&[5, 6])).unwrap();
    assert_eq!(ok.outcome, Outcome::Met);
    assert_eq!(ok.summary, Summary::SocialViews { posts: 2, total_views: 11 });
    assert_eq!(eval(&social_input(&[5, 5])).unwrap().outcome, Outcome::NotMet);

    let mut v = social_input(&[1]);
    if let Evidence::SocialViews { account, .. } = &mut v.evidence {
        *account = "other".to_string();
    }
    assert_eq!(eval(&v).unwrap_err(), "account mismatch");
    assert_eq!(eval(&social_input(&[])).unwrap_err(), "social evidence requires 1–1000 posts");
    let mut v = social_input(&[1, 2]);
    if let Evidence::SocialViews { posts, .. } = &mut v.evidence {
        posts[1].id = "p0".to_string();
    }
    assert_eq!(eval(&v).unwrap_err(), "duplicate post");
    let mut v = social_input(&[1]);
    if let Evidence::SocialViews { posts, .. } = &mut v.evidence {
        posts[0].published_at = 200;
    }
    assert_eq!(eval(&v).unwrap_err(), "post is outside the half-open policy window");
    assert_eq!(eval(&social_input(&[u64::MAX, 1])).unwrap_err(), "view total overflow");
    assert!(eval(&social_input(&[u64::MAX])).is_ok());
    // The first failing record decides the message.
    let mut v = social_input(&[u64::MAX, 1, 1]);
    if let Evidence::SocialViews { posts, .. } = &mut v.evidence {
        posts[2].id = "p0".to_string();
    }
    assert_eq!(eval(&v).unwrap_err(), "view total overflow");
}

#[test]
fn market_and_kind_problems() {
    let mut v = market_input(Resolution::Yes);
    if let Evidence::MarketResolution { question, .. } = &mut v.evidence {
        *question = "other?".to_string();
    }
    assert_eq!(eval(&v).unwrap_err(), "market identity or question mismatch");
    let j = eval(&market_input(Resolution::Cancelled)).unwrap();
    assert_eq!(j.summary, Summary::MarketResolution { resolution: Resolution::Cancelled });
    let mut v = market_input(Resolution::Yes);
    v.evidence = social_input(&[1]).evidence;
    assert_eq!(eval(&v).unwrap_err(), "metric and evidence kinds differ");
    // Policy problems come before kind problems.
    v.policy.schema_version = 0;
    assert_eq!(eval(&v).unwrap_err(), "unsupported schema version");
}

#[test]
fn survey_evaluation_reports_each_problem() {
    let ok = eval(&survey_input(vec![vec![true, false], vec![false, false]], 2)).unwrap();
    assert_eq!(ok.outcome, Outcome::Met);
    assert_eq!(ok.summary, Summary::ParticipantSurvey { respondents: 2, positive_respondents: 1 });
    let small = eval(&survey_input(vec![vec![true, true]], 2)).unwrap();
    assert_eq!(small.outcome, Outcome::Indeterminate);
    let none = eval(&survey_input(vec![vec![false, false], vec![false, true]], 2)).unwrap();
    assert_eq!(none.outcome, Outcome::Met);
    let zero = eval(&survey_input(vec![vec![false, false], vec![false, false]], 2)).unwrap();
    assert_eq!(zero.outcome, Outcome::NotMet);

    let mut v = survey_input(vec![vec![true, true]], 1);
    if let Evidence::ParticipantSurvey { survey_id, .. } = &mut v.evidence {
        *survey_id = "t".to_string();
    }
    assert_eq!(eval(&v).unwrap_err(), "survey identity or ordered questions mismatch");
    assert_eq!(
        eval(&survey_input(vec![], 1)).unwrap_err(),
        "survey evidence requires 1–1000 respondents"
    );
    let mut v = survey_input(vec![vec![true, true], vec![true, true]], 1);
    if let Evidence::ParticipantSurvey { respondents, .. } = &mut v.evidence {
        respondents[1].id = "r0".to_string();
    }
    assert_eq!(eval(&v).unwrap_err(), "duplicate respondent");
    let mut v = survey_input(vec![vec![true, true]], 1);
    if let Evidence::ParticipantSurvey { respondents, .. } = &mut v.evidence {
        respondents[0].consented = false;
    }
    assert_eq!(eval(&v).unwrap_err(), "nonconsenting respondents must not be submitted");
    assert_eq!(
        eval(&survey_input(vec![vec![true]], 1)).unwrap_err(),
        "incomplete or extra survey answers"
    );
}

#[test]
fn journal_commits_to_supplied_serializations() {
    let j = evaluate(&market_input(Resolution::Yes), b"P", b"E").unwrap();
    assert_eq!(j.schema_version, 1);
    assert_eq!(j.policy_sha256, commitment("symbiont/policy/v1", b"P"));
    assert_eq!(j.evidence_sha256, commitment("symbiont/evidence/v1", b"E"));
    assert_ne!(j.policy_sha256, commitment("symbiont/evidence/v1", b"P"));
}

#[test]
fn expectation_accepts_its_own_journal_for_every_metric() {
    for input in [
        social_input(&[3, 9]),
        market_input(Resolution::No),
        survey_input(vec![vec![true, true], vec![false, true]], 1),
    ] {
        let journal = evaluate(&input, b"policy", b"evidence").unwrap();
        let expected = expectation(&input, b"policy", b"evidence").unwrap();
        assert_eq!(expected.policy, input.policy);
        assert_eq!(expected.evidence_sha256, journal.evidence_sha256);
        assert!(check_expectation(&journal, &expected, b"policy").is_ok());
        assert_eq!(
            check_expectation(&journal, &expected, b"another policy").unwrap_err(),
            "receipt does not match expected policy"
        );
    }
    assert_eq!(
        expectation(&social_input(&[]), b"p", b"e").unwrap_err(),
        "social evidence requires 1–1000 posts"
    );
}

#[test]
fn comparison_reports_each_problem() {
    let input = market_input(Resolution::Yes);
    let journal = evaluate(&input, b"p", b"e").unwrap();
    let expected = expectation(&input, b"p", b"e").unwrap();

    let mut bad = expected.clone();
    bad.policy.run_id = " ".to_string();
    assert_eq!(check_expectation(&journal, &bad, b"p").unwrap_err(), TEXT_ERROR);
    let mut upper = expected.clone();
    upper.evidence_sha256 = upper.evidence_sha256.to_uppercase();
    assert_eq!(
        check_expectation(&journal, &upper, b"p").unwrap_err(),
        "expected evidence digest must be lowercase SHA-256 hex"
    );
    let mut short = expected.clone();
    short.evidence_sha256.pop();
    assert!(check_expectation(&journal, &short, b"p").is_err());
    let mut old = journal.clone();
    old.schema_version = 2;
    assert_eq!(check_expectation(&old, &expected, b"p").unwrap_err(), "unsupported journal version");
    let other = Expectation { policy: expected.policy.clone(), evidence_sha256: "f".repeat(64) };
    assert_eq!(
        check_expectation(&journal, &other, b"p").unwrap_err(),
        "receipt does not match expected evidence"
    );
}

#[test]
fn input_size_limit_is_inclusive() {
    assert!(check_input_size(&vec![0u8; MAX_INPUT_BYTES]).is_ok());
    assert_eq!(
        check_input_size(&vec![0u8; MAX_INPUT_BYTES + 1]).unwrap_err(),
        "input exceeds 1 MiB"
    );
}

#[test]
fn view_and_market_reports() {
    assert_eq!(get_current_timestamp(), 1735689600);
    let r = verify_x_account_views("lab", "2025-08-16", "2025-08-23", 30000, 45000, 8);
    assert!(r.metric_met);
    assert_eq!(r.actual_value, "45000");
    assert_eq!(r.threshold, "30000");
    assert_eq!(r.evidence, "Posts analyzed: 8, Week: 2025-08-16 to 2025-08-23");
    assert_eq!(r.timestamp, 1735689600);
    assert!(verify_x_account_views("lab", "a", "b", 30000, 30001, 1).metric_met);
    assert!(!verify_x_account_views("lab", "a", "b", 30000, 30000, 1).metric_met);
    let m = verify_prediction_market("0x1234567890abcdef", "Will it?", true, "YES");
    assert!(m.metric_met);
    assert_eq!(m.actual_value, "YES");
    assert_eq!(m.threshold, "true");
    assert_eq!(m.evidence, "Market: 0x1234567890abcdef, Question: Will it?");
    assert!(!verify_prediction_market("a", "b", false, "NO").metric_met);
    assert!(!verify_prediction_market("a", "b", true, "NO").metric_met);
    assert!(!verify_prediction_market("a", "b", false, "YES").metric_met);
    assert!(!verify_prediction_market("a", "b", true, "yes").metric_met);
}
