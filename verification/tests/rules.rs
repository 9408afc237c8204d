use symbiont_core::{
    check_expectation, check_input_size, evaluate, expectation, Evidence, Expectation, Input,
    Journal, Metric, Outcome, Policy, Post, Resolution, Respondent, Summary, MAX_INPUT_BYTES,
};

// ------------------------------------------------------------------ fixtures

fn social_fixture() -> Input {
    let views = [15_000u64, 12_000, 10_000, 8_000];
    let times = [1_751_328_000u64, 1_751_400_000, 1_751_600_000, 1_751_900_000];
    Input {
        policy: Policy {
            schema_version: 1,
            run_id: "social-run-0001".to_string(),
            metric: Metric::SocialViews {
                account: "aug-lab".to_string(),
                window_start: 1_751_328_000,
                window_end: 1_751_932_800,
                views_must_exceed: 30_000,
            },
        },
        evidence: Evidence::SocialViews {
            account: "aug-lab".to_string(),
            posts: (0..4)
                .map(|i| Post {
                    id: format!("post-{}", i + 1),
                    published_at: times[i],
                    views: views[i],
                })
                .collect(),
        },
    }
}

fn market_fixture() -> Input {
    Input {
        policy: Policy {
            schema_version: 1,
            run_id: "market-run-0001".to_string(),
            metric: Metric::MarketResolution {
                market_id: "example-chain:market-42".to_string(),
                question: "Will most members present finished projects?".to_string(),
            },
        },
        evidence: Evidence::MarketResolution {
            market_id: "example-chain:market-42".to_string(),
            question: "Will most members present finished projects?".to_string(),
            resolution: Resolution::Yes,
        },
    }
}

fn question_ids() -> Vec<String> {
    vec!["q-1".to_string(), "q-2".to_string(), "q-3".to_string(), "q-4".to_string()]
}

fn survey_fixture() -> Input {
    let answers = [
        vec![true, true, true, true],
        vec![true, true, true, true],
        vec![true, false, true, true],
        vec![true, true, true, true],
        vec![true, true, true, true],
    ];
    Input {
        policy: Policy {
            schema_version: 1,
            run_id: "survey-run-0001".to_string(),
            metric: Metric::ParticipantSurvey {
                community_id: "demo-community".to_string(),
                survey_id: "summer-reflection".to_string(),
                question_ids: question_ids(),
                minimum_respondents: 5,
                positive_answers_bps: 8000,
                positive_respondents_bps: 8000,
            },
        },
        evidence: Evidence::ParticipantSurvey {
            community_id: "demo-community".to_string(),
            survey_id: "summer-reflection".to_string(),
            question_ids: question_ids(),
            respondents: (0..5)
                .map(|i| Respondent {
                    id: format!("participant-{}", i + 1),
                    consented: true,
                    positive_answers: answers[i].clone(),
                })
                .collect(),
        },
    }
}

// ------------------------------------------------------------------ compact JSON of policy and evidence

fn json_string(s: &str) -> String {
    let mut out = String::from("\"");
    for c in s.chars() {
        match c {
            '"' => out.push_str("\\\""),
            '\\' => out.push_str("\\\\"),
            c if (c as u32) < 0x20 => out.push_str(&format!("\\u{:04x}", c as u32)),
            c => out.push(c),
        }
    }
    out.push('"');
    out
}

fn json_strings(v: &[String]) -> String {
    format!("[{}]", v.iter().map(|s| json_string(s)).collect::<Vec<_>>().join(","))
}

fn policy_json(p: &Policy) -> Vec<u8> {
    let metric = match &p.metric {
        Metric::SocialViews { account, window_start, window_end, views_must_exceed } => format!(
            "{{\"kind\":\"social_views\",\"account\":{},\"window_start\":{},\"window_end\":{},\"views_must_exceed\":{}}}",
            json_string(account),
            window_start,
            window_end,
            views_must_exceed
        ),
        Metric::MarketResolution { market_id, question } => format!(
            "{{\"kind\":\"market_resolution\",\"market_id\":{},\"question\":{}}}",
            json_string(market_id),
            json_string(question)
        ),
        Metric::ParticipantSurvey {
            community_id,
            survey_id,
            question_ids,
            minimum_respondents,
            positive_answers_bps,
            positive_respondents_bps,
        } => format!(
            "{{\"kind\":\"participant_survey\",\"community_id\":{},\"survey_id\":{},\"question_ids\":{},\"minimum_respondents\":{},\"positive_answers_bps\":{},\"positive_respondents_bps\":{}}}",
            json_string(community_id),
            json_string(survey_id),
            json_strings(question_ids),
            minimum_respondents,
            positive_answers_bps,
            positive_respondents_bps
        ),
    };
    format!(
        "{{\"schema_version\":{},\"run_id\":{},\"metric\":{}}}",
        p.schema_version,
        json_string(&p.run_id),
        metric
    )
    .into_bytes()
}

fn resolution_json(r: Resolution) -> &'static str {
    match r {
        Resolution::Yes => "\"yes\"",
        Resolution::No => "\"no\"",
        Resolution::Unresolved => "\"unresolved\"",
        Resolution::Cancelled => "\"cancelled\"",
    }
}

fn evidence_json(e: &Evidence) -> Vec<u8> {
    match e {
        Evidence::SocialViews { account, posts } => format!(
            "{{\"kind\":\"social_views\",\"account\":{},\"posts\":[{}]}}",
            json_string(account),
            posts
                .iter()
                .map(|p| format!(
                    "{{\"id\":{},\"published_at\":{},\"views\":{}}}",
                    json_string(&p.id),
                    p.published_at,
                    p.views
                ))
                .collect::<Vec<_>>()
                .join(",")
        ),
        Evidence::MarketResolution { market_id, question, resolution } => format!(
            "{{\"kind\":\"market_resolution\",\"market_id\":{},\"question\":{},\"resolution\":{}}}",
            json_string(market_id),
            json_string(question),
            resolution_json(*resolution)
        ),
        Evidence::ParticipantSurvey { community_id, survey_id, question_ids, respondents } => {
            format!(
                "{{\"kind\":\"participant_survey\",\"community_id\":{},\"survey_id\":{},\"question_ids\":{},\"respondents\":[{}]}}",
                json_string(community_id),
                json_string(survey_id),
                json_strings(question_ids),
                respondents
                    .iter()
                    .map(|r| format!(
                        "{{\"id\":{},\"consented\":{},\"positive_answers\":[{}]}}",
                        json_string(&r.id),
                        r.consented,
                        r.positive_answers
                            .iter()
                            .map(|a| a.to_string())
                            .collect::<Vec<_>>()
                            .join(",")
                    ))
                    .collect::<Vec<_>>()
                    .join(",")
            )
        },
    }
    .into_bytes()
}

fn run(input: Input) -> Result<Journal, String> {
    evaluate(&input, &policy_json(&input.policy), &evidence_json(&input.evidence))
}

fn prepare(input: &Input) -> Result<Expectation, String> {
    expectation(input, &policy_json(&input.policy), &evidence_json(&input.evidence))
}

fn check(journal: &Journal, expected: &Expectation) -> Result<(), String> {
    check_expectation(journal, expected, &policy_json(&expected.policy))
}

fn social_posts(input: &mut Input) -> &mut Vec<Post> {
    match &mut input.evidence {
        Evidence::SocialViews { posts, .. } => posts,
        _ => unreachable!(),
    }
}

fn survey_respondents(input: &mut Input) -> &mut Vec<Respondent> {
    match &mut input.evidence {
        Evidence::ParticipantSurvey { respondents, .. } => respondents,
        _ => unreachable!(),
    }
}

// ------------------------------------------------------------------ rules

#[test]
fn synthetic_examples_recompute_expected_aggregates() {
    let social = run(social_fixture()).unwrap();
    assert_eq!(social.outcome, Outcome::Met);
    assert_eq!(social.summary, Summary::SocialViews { posts: 4, total_views: 45_000 });
    let survey = run(survey_fixture()).unwrap();
    assert_eq!(survey.outcome, Outcome::Met);
    assert_eq!(
        survey.summary,
        Summary::ParticipantSurvey { respondents: 5, positive_respondents: 4 }
    );
}

#[test]
fn social_threshold_is_strictly_greater() {
    for (threshold, expected) in
        [(44999, Outcome::Met), (45000, Outcome::NotMet), (45001, Outcome::NotMet)]
    {
        let mut v = social_fixture();
        if let Metric::SocialViews { views_must_exceed, .. } = &mut v.policy.metric {
            *views_must_exceed = threshold;
        }
        assert_eq!(run(v).unwrap().outcome, expected);
    }
}

#[test]
fn post_window_is_start_inclusive_end_exclusive() {
    for (time, accepted) in [
        (1751327999u64, false),
        (1751328000, true),
        (1751932799, true),
        (1751932800, false),
    ] {
        let mut v = social_fixture();
        social_posts(&mut v)[0].published_at = time;
        assert_eq!(run(v).is_ok(), accepted);
    }
}

#[test]
fn duplicate_posts_empty_posts_and_wrong_accounts_are_rejected() {
    let mut v = social_fixture();
    let first = social_posts(&mut v)[0].id.clone();
    social_posts(&mut v)[1].id = first;
    assert!(run(v).unwrap_err().contains("duplicate"));
    let mut v = social_fixture();
    social_posts(&mut v).clear();
    assert!(run(v).is_err());
    let mut v = social_fixture();
    if let Evidence::SocialViews { account, .. } = &mut v.evidence {
        *account = "someone-else".to_string();
    }
    assert!(run(v).is_err());
}

// Negative and fractional view counts are JSON that does not parse into `u64`; those
// cases are tested where inputs are parsed, in app/wire.rs.
#[test]
fn overflowing_view_totals_are_rejected() {
    let mut v = social_fixture();
    social_posts(&mut v)[0].views = u64::MAX;
    assert!(run(v).is_err());
}

#[test]
fn market_no_is_not_success_and_nonfinal_markets_are_indeterminate() {
    for (resolution, expected) in [
        (Resolution::Yes, Outcome::Met),
        (Resolution::No, Outcome::NotMet),
        (Resolution::Unresolved, Outcome::Indeterminate),
        (Resolution::Cancelled, Outcome::Indeterminate),
    ] {
        let mut v = market_fixture();
        if let Evidence::MarketResolution { resolution: r, .. } = &mut v.evidence {
            *r = resolution;
        }
        assert_eq!(run(v).unwrap().outcome, expected);
    }
}

// A forged resolution string does not parse into `Resolution`; that case is tested where
// inputs are parsed, in app/wire.rs.
#[test]
fn market_identity_and_question_are_bound() {
    for field in ["market_id", "question"] {
        let mut v = market_fixture();
        if let Evidence::MarketResolution { market_id, question, .. } = &mut v.evidence {
            match field {
                "market_id" => *market_id = "forged".to_string(),
                _ => *question = "forged".to_string(),
            }
        }
        assert!(run(v).is_err());
    }
}

#[test]
fn survey_four_questions_require_four_positive_answers_at_eighty_percent() {
    let mut v = survey_fixture();
    for respondent in survey_respondents(&mut v).iter_mut() {
        respondent.positive_answers = vec![true, true, true, false];
    }
    let journal = run(v).unwrap();
    assert_eq!(journal.outcome, Outcome::NotMet);
    assert_eq!(
        journal.summary,
        Summary::ParticipantSurvey { respondents: 5, positive_respondents: 0 }
    );
}

#[test]
fn survey_cohort_threshold_uses_exact_integer_arithmetic() {
    for (threshold, expected) in
        [(7999, Outcome::Met), (8000, Outcome::Met), (8001, Outcome::NotMet)]
    {
        let mut v = survey_fixture();
        if let Metric::ParticipantSurvey { positive_respondents_bps, .. } = &mut v.policy.metric {
            *positive_respondents_bps = threshold;
        }
        assert_eq!(run(v).unwrap().outcome, expected);
    }
}

#[test]
fn survey_small_sample_is_indeterminate() {
    let mut v = survey_fixture();
    if let Metric::ParticipantSurvey { minimum_respondents, .. } = &mut v.policy.metric {
        *minimum_respondents = 6;
    }
    assert_eq!(run(v).unwrap().outcome, Outcome::Indeterminate);
}

#[test]
fn survey_rejects_duplicates_nonconsent_and_incomplete_answers() {
    let mut v = survey_fixture();
    survey_respondents(&mut v)[1].id = "participant-1".to_string();
    assert!(run(v).is_err());
    let mut v = survey_fixture();
    survey_respondents(&mut v)[0].consented = false;
    assert!(run(v).is_err());
    for answers in [vec![], vec![true], vec![true, true, true, true, true]] {
        let mut v = survey_fixture();
        survey_respondents(&mut v)[0].positive_answers = answers;
        assert!(run(v).is_err());
    }
}

#[test]
fn survey_rejects_empty_samples_and_mismatched_question_order() {
    let mut v = survey_fixture();
    survey_respondents(&mut v).clear();
    assert!(run(v).is_err());
    let mut v = survey_fixture();
    if let Evidence::ParticipantSurvey { question_ids, .. } = &mut v.evidence {
        question_ids.swap(0, 1);
    }
    assert!(run(v).is_err());
    for field in ["community_id", "survey_id"] {
        let mut v = survey_fixture();
        if let Evidence::ParticipantSurvey { community_id, survey_id, .. } = &mut v.evidence {
            match field {
                "community_id" => *community_id = "different".to_string(),
                _ => *survey_id = "different".to_string(),
            }
        }
        assert!(run(v).is_err());
    }
}

#[test]
fn policies_reject_invalid_thresholds_windows_and_duplicate_questions() {
    for threshold in [0, 10001] {
        for field in ["positive_answers_bps", "positive_respondents_bps"] {
            let mut v = survey_fixture();
            if let Metric::ParticipantSurvey {
                positive_answers_bps,
                positive_respondents_bps,
                ..
            } = &mut v.policy.metric
            {
                match field {
                    "positive_answers_bps" => *positive_answers_bps = threshold,
                    _ => *positive_respondents_bps = threshold,
                }
            }
            assert!(run(v).is_err());
        }
    }
    let mut v = social_fixture();
    if let Metric::SocialViews { window_end, .. } = &mut v.policy.metric {
        *window_end = 0;
    }
    assert!(run(v).is_err());
    let mut v = survey_fixture();
    if let Metric::ParticipantSurvey { question_ids, .. } = &mut v.policy.metric {
        *question_ids = vec!["same".to_string(), "same".to_string()];
    }
    assert!(run(v).is_err());
}

// Unknown fields, trailing JSON and truncated JSON are parse errors; those cases are
// tested where inputs are parsed, in app/wire.rs.
#[test]
fn inputs_reject_unsupported_versions_and_mismatched_kinds() {
    let mut v = market_fixture();
    v.policy.schema_version = 2;
    assert!(run(v).is_err());
    let mut v = market_fixture();
    v.evidence = social_fixture().evidence;
    assert!(run(v).is_err());
}

#[test]
fn resource_limits_are_enforced() {
    assert!(check_input_size(&vec![b' '; MAX_INPUT_BYTES + 1]).is_err());
    let mut v = social_fixture();
    *social_posts(&mut v) = (0..1001)
        .map(|i| Post { id: format!("post-{i}"), published_at: 1751328000, views: 1 })
        .collect();
    assert!(run(v).is_err());
    let mut v = market_fixture();
    v.policy.run_id = "x".repeat(257);
    assert!(run(v).is_err());
}

// That JSON layout does not change a commitment is a property of parsing and
// re-serializing, tested in app/wire.rs; here the digests bind the supplied bytes.
#[test]
fn commitments_bind_policy_and_evidence() {
    let a = market_fixture();
    let journal = run(a.clone()).unwrap();
    let expected = prepare(&a).unwrap();
    check(&journal, &expected).unwrap();
    let mut changed = expected.clone();
    changed.policy.run_id.push_str("-replay");
    assert!(check(&journal, &changed).is_err());
    let mut changed = expected;
    changed.evidence_sha256 = "0".repeat(64);
    assert!(check(&journal, &changed).is_err());
    let mut changed_input = a;
    if let Evidence::MarketResolution { resolution, .. } = &mut changed_input.evidence {
        *resolution = Resolution::No;
    }
    assert_ne!(journal.evidence_sha256, run(changed_input).unwrap().evidence_sha256);
}

#[test]
fn journal_does_not_publish_raw_record_identifiers_or_answers() {
    let encoded = format!("{:?}", run(survey_fixture()).unwrap());
    for private in ["participant-", "positive_answers", "summer-reflection", "demo-community"] {
        assert!(!encoded.contains(private));
    }
}

#[test]
fn source_authenticity_is_explicitly_outside_the_arithmetic_proof() {
    // Self-consistent invented data passes these rules. Authenticating the collection
    // process is a separate integration, not a property this proof can supply.
    let mut v = social_fixture();
    social_posts(&mut v)[0].views = 1_000_000;
    assert_eq!(run(v).unwrap().outcome, Outcome::Met);
}
