//! Evaluation of a metric over its evidence.
use vstd::prelude::*;
use crate::checks::{
    first_some, lemma_first_some_all, lemma_first_some_prefix, lemma_first_some_step, require,
    text, text_message, valid_text,
};
use crate::digest::{commitment, commitment_of, is_lower_sha256_hex, lemma_commitment_is_lower_hex};
use vstd::utf8::encode_utf8;
use crate::model::{
    strings_view, Evidence, Input, Journal, Metric, Outcome, Post, Resolution, Respondent,
    SpecEvidence, SpecInput, SpecMetric, SpecPost, SpecRespondent, Summary, MAX_INPUT_BYTES,
    MAX_RECORDS, SCHEMA_VERSION,
};
use crate::policy::policy_check;

verus! {

/// The commitment domain of policies.
pub open spec fn policy_domain() -> Seq<char> {
    "symbiont/policy/v1"@
}

/// The commitment domain of evidence.
pub open spec fn evidence_domain() -> Seq<char> {
    "symbiont/evidence/v1"@
}

// ---------------------------------------------------------------- social views

/// Total views of a list of posts.
pub open spec fn sum_views(posts: Seq<SpecPost>) -> nat
    decreases posts.len(),
{
    if posts.len() == 0 {
        0
    } else {
        sum_views(posts.drop_last()) + posts.last().views as nat
    }
}

/// What is wrong with post `i`, if anything: a bad identifier, a repeated identifier,
/// a publication time outside `[window_start, window_end)`, or a running total of views
/// that no longer fits in 64 bits.
pub open spec fn post_error(
    posts: Seq<SpecPost>,
    i: int,
    window_start: u64,
    window_end: u64,
) -> Option<Seq<char>> {
    if !valid_text(posts[i].id) {
        Some(text_message())
    } else if exists|j: int| 0 <= j < i && posts[j].id == posts[i].id {
        Some("duplicate post"@)
    } else if !(window_start <= posts[i].published_at < window_end) {
        Some("post is outside the half-open policy window"@)
    } else if sum_views(posts.take(i + 1)) > u64::MAX {
        Some("view total overflow"@)
    } else {
        None
    }
}

/// The per-post problems, in order.
pub open spec fn post_errors(posts: Seq<SpecPost>, window_start: u64, window_end: u64) -> Seq<
    Option<Seq<char>>,
> {
    Seq::new(posts.len(), |i: int| post_error(posts, i, window_start, window_end))
}

/// Social-views evaluation: the evidence is for the policy's account, has 1–1000 valid
/// posts, and the metric is met exactly when the total views strictly exceed the threshold.
pub open spec fn social_rules(
    account: Seq<char>,
    window_start: u64,
    window_end: u64,
    views_must_exceed: u64,
    source_account: Seq<char>,
    posts: Seq<SpecPost>,
) -> Result<(Outcome, Summary), Seq<char>> {
    if account != source_account {
        Err("account mismatch"@)
    } else if !(0 < posts.len() <= MAX_RECORDS) {
        Err("social evidence requires 1–1000 posts"@)
    } else {
        match first_some(post_errors(posts, window_start, window_end)) {
            Some(e) => Err(e),
            None => Ok(
                (
                    if sum_views(posts) > views_must_exceed {
                        Outcome::Met
                    } else {
                        Outcome::NotMet
                    },
                    Summary::SocialViews {
                        posts: posts.len() as u32,
                        total_views: sum_views(posts) as u64,
                    },
                ),
            ),
        }
    }
}

fn post_repeats_earlier(posts: &Vec<Post>, i: usize) -> (b: bool)
    requires
        i < posts@.len(),
    ensures
        b == exists|j: int| 0 <= j < i && posts@[j].id@ == posts@[i as int].id@,
{
    for j in 0..i
        invariant
            i < posts@.len(),
            forall|k: int| 0 <= k < j ==> posts@[k].id@ != posts@[i as int].id@,
    {
        if posts[j].id == posts[i].id {
            return true;
        }
    }
    false
}

fn evaluate_social(
    account: &String,
    window_start: u64,
    window_end: u64,
    views_must_exceed: u64,
    source_account: &String,
    posts: &Vec<Post>,
) -> (r: Result<(Outcome, Summary), String>)
    ensures
        ({
            let spec_posts = posts@.map_values(|p: Post| p@);
            let expected = social_rules(
                account@,
                window_start,
                window_end,
                views_must_exceed,
                source_account@,
                spec_posts,
            );
            match r {
                Ok(v) => expected == Ok::<_, Seq<char>>(v),
                Err(e) => expected == Err::<(Outcome, Summary), _>(e@),
            }
        }),
{
    let ghost sp = posts@.map_values(|p: Post| p@);
    require(*account == *source_account, "account mismatch")?;
    require(posts.len() != 0 && posts.len() <= MAX_RECORDS, "social evidence requires 1–1000 posts")?;
    let ghost errs = post_errors(sp, window_start, window_end);
    let n = posts.len();
    let mut total: u64 = 0;
    for i in 0..n
        invariant
            n == posts@.len(),
            0 < n <= MAX_RECORDS,
            account@ == source_account@,
            sp == posts@.map_values(|p: Post| p@),
            errs == post_errors(sp, window_start, window_end),
            first_some(errs.take(i as int)) is None,
            total == sum_views(sp.take(i as int)),
    {
        proof {
            lemma_first_some_step(errs, i as int);
            assert(sp.take(i + 1).drop_last() =~= sp.take(i as int));
        }
        let post = &posts[i];
        let checked = text(post.id.as_str());
        if checked.is_err() {
            proof {
                lemma_first_some_prefix(errs, i + 1);
            }
            return Err(checked.unwrap_err());
        }
        if post_repeats_earlier(posts, i) {
            proof {
                let j = choose|j: int| 0 <= j < i && posts@[j].id@ == posts@[i as int].id@;
                assert(sp[j].id == sp[i as int].id);
                lemma_first_some_prefix(errs, i + 1);
            }
            return Err("duplicate post".to_owned());
        }
        if !(post.published_at >= window_start && post.published_at < window_end) {
            proof {
                lemma_first_some_prefix(errs, i + 1);
            }
            return Err("post is outside the half-open policy window".to_owned());
        }
        match total.checked_add(post.views) {
            Some(t) => {
                total = t;
            },
            None => {
                proof {
                    lemma_first_some_prefix(errs, i + 1);
                }
                return Err("view total overflow".to_owned());
            },
        }
    }
    proof {
        lemma_first_some_all(errs);
        assert(sp.take(n as int) =~= sp);
    }
    let outcome = if total > views_must_exceed {
        Outcome::Met
    } else {
        Outcome::NotMet
    };
    Ok((outcome, Summary::SocialViews { posts: n as u32, total_views: total }))
}

// ---------------------------------------------------------------- market resolution

/// A `yes` resolution meets the metric, `no` does not, and a pending or cancelled
/// market is indeterminate.
pub open spec fn resolution_outcome(r: Resolution) -> Outcome {
    match r {
        Resolution::Yes => Outcome::Met,
        Resolution::No => Outcome::NotMet,
        Resolution::Unresolved => Outcome::Indeterminate,
        Resolution::Cancelled => Outcome::Indeterminate,
    }
}

/// Market evaluation: the evidence names the policy's market and question.
pub open spec fn market_rules(
    market_id: Seq<char>,
    question: Seq<char>,
    source_id: Seq<char>,
    source_question: Seq<char>,
    resolution: Resolution,
) -> Result<(Outcome, Summary), Seq<char>> {
    if !(market_id == source_id && question == source_question) {
        Err("market identity or question mismatch"@)
    } else {
        Ok((resolution_outcome(resolution), Summary::MarketResolution { resolution }))
    }
}

fn evaluate_market(
    market_id: &String,
    question: &String,
    source_id: &String,
    source_question: &String,
    resolution: Resolution,
) -> (r: Result<(Outcome, Summary), String>)
    ensures
        ({
            let expected = market_rules(
                market_id@,
                question@,
                source_id@,
                source_question@,
                resolution,
            );
            match r {
                Ok(v) => expected == Ok::<_, Seq<char>>(v),
                Err(e) => expected == Err::<(Outcome, Summary), _>(e@),
            }
        }),
{
    require(
        *market_id == *source_id && *question == *source_question,
        "market identity or question mismatch",
    )?;
    let outcome = match resolution {
        Resolution::Yes => Outcome::Met,
        Resolution::No => Outcome::NotMet,
        Resolution::Unresolved => Outcome::Indeterminate,
        Resolution::Cancelled => Outcome::Indeterminate,
    };
    Ok((outcome, Summary::MarketResolution { resolution }))
}

// ---------------------------------------------------------------- participant survey

/// Number of `true` answers.
pub open spec fn count_true(s: Seq<bool>) -> nat
    decreases s.len(),
{
    if s.len() == 0 {
        0
    } else {
        count_true(s.drop_last()) + if s.last() {
            1nat
        } else {
            0nat
        }
    }
}

/// A respondent is positive when their share of positive answers reaches the threshold:
/// `yes * 10000 >= questions * bps`.
pub open spec fn qualifies(r: SpecRespondent, questions: nat, bps: u32) -> bool {
    count_true(r.positive_answers) * 10_000 >= questions * bps
}

/// Number of positive respondents.
pub open spec fn count_qualifying(rs: Seq<SpecRespondent>, questions: nat, bps: u32) -> nat
    decreases rs.len(),
{
    if rs.len() == 0 {
        0
    } else {
        count_qualifying(rs.drop_last(), questions, bps) + if qualifies(
            rs.last(),
            questions,
            bps,
        ) {
            1nat
        } else {
            0nat
        }
    }
}

/// What is wrong with respondent `i`, if anything: a bad or repeated identifier, no
/// consent, or not exactly one answer per question.
pub open spec fn respondent_error(rs: Seq<SpecRespondent>, i: int, questions: nat) -> Option<
    Seq<char>,
> {
    if !valid_text(rs[i].id) {
        Some(text_message())
    } else if exists|j: int| 0 <= j < i && rs[j].id == rs[i].id {
        Some("duplicate respondent"@)
    } else if !rs[i].consented {
        Some("nonconsenting respondents must not be submitted"@)
    } else if rs[i].positive_answers.len() != questions {
        Some("incomplete or extra survey answers"@)
    } else {
        None
    }
}

/// The per-respondent problems, in order.
pub open spec fn respondent_errors(rs: Seq<SpecRespondent>, questions: nat) -> Seq<
    Option<Seq<char>>,
> {
    Seq::new(rs.len(), |i: int| respondent_error(rs, i, questions))
}

/// Survey evaluation: identity and ordered questions match, 1–1000 valid respondents;
/// below the minimum sample the outcome is indeterminate, otherwise the metric is met
/// when `positive * 10000 >= respondents * bps`.
pub open spec fn survey_rules(
    community_id: Seq<char>,
    survey_id: Seq<char>,
    question_ids: Seq<Seq<char>>,
    minimum_respondents: u32,
    positive_answers_bps: u32,
    positive_respondents_bps: u32,
    source_community: Seq<char>,
    source_survey: Seq<char>,
    source_questions: Seq<Seq<char>>,
    respondents: Seq<SpecRespondent>,
) -> Result<(Outcome, Summary), Seq<char>> {
    if !(community_id == source_community && survey_id == source_survey && question_ids
        == source_questions) {
        Err("survey identity or ordered questions mismatch"@)
    } else if !(0 < respondents.len() <= MAX_RECORDS) {
        Err("survey evidence requires 1–1000 respondents"@)
    } else {
        match first_some(respondent_errors(respondents, question_ids.len())) {
            Some(e) => Err(e),
            None => {
                let count = respondents.len();
                let positive = count_qualifying(
                    respondents,
                    question_ids.len(),
                    positive_answers_bps,
                );
                let outcome = if count < minimum_respondents {
                    Outcome::Indeterminate
                } else if positive * 10_000 >= count * positive_respondents_bps {
                    Outcome::Met
                } else {
                    Outcome::NotMet
                };
                Ok(
                    (
                        outcome,
                        Summary::ParticipantSurvey {
                            respondents: count as u32,
                            positive_respondents: positive as u32,
                        },
                    ),
                )
            },
        }
    }
}

fn same_strings(a: &Vec<String>, b: &Vec<String>) -> (r: bool)
    ensures
        r == (strings_view(a@) == strings_view(b@)),
{
    if a.len() != b.len() {
        proof {
            assert(strings_view(a@).len() != strings_view(b@).len());
        }
        return false;
    }
    let n = a.len();
    for i in 0..n
        invariant
            n == a@.len(),
            n == b@.len(),
            forall|k: int| 0 <= k < i ==> a@[k]@ == b@[k]@,
    {
        if a[i] != b[i] {
            proof {
                assert(strings_view(a@)[i as int] != strings_view(b@)[i as int]);
            }
            return false;
        }
    }
    proof {
        assert(strings_view(a@) =~= strings_view(b@));
    }
    true
}

fn count_positive_answers(answers: &Vec<bool>) -> (r: u64)
    requires
        answers@.len() <= MAX_RECORDS,
    ensures
        r == count_true(answers@),
        r <= answers@.len(),
{
    let n = answers.len();
    let mut yes: u64 = 0;
    for i in 0..n
        invariant
            n == answers@.len(),
            n <= MAX_RECORDS,
            yes == count_true(answers@.take(i as int)),
            yes <= i,
    {
        proof {
            assert(answers@.take(i + 1).drop_last() =~= answers@.take(i as int));
        }
        if answers[i] {
            yes = yes + 1;
        }
    }
    proof {
        assert(answers@.take(n as int) =~= answers@);
    }
    yes
}

fn respondent_repeats_earlier(rs: &Vec<Respondent>, i: usize) -> (b: bool)
    requires
        i < rs@.len(),
    ensures
        b == exists|j: int| 0 <= j < i && rs@[j].id@ == rs@[i as int].id@,
{
    for j in 0..i
        invariant
            i < rs@.len(),
            forall|k: int| 0 <= k < j ==> rs@[k].id@ != rs@[i as int].id@,
    {
        if rs[j].id == rs[i].id {
            return true;
        }
    }
    false
}

fn evaluate_survey(
    community_id: &String,
    survey_id: &String,
    question_ids: &Vec<String>,
    minimum_respondents: u32,
    positive_answers_bps: u32,
    positive_respondents_bps: u32,
    source_community: &String,
    source_survey: &String,
    source_questions: &Vec<String>,
    respondents: &Vec<Respondent>,
) -> (r: Result<(Outcome, Summary), String>)
    requires
        question_ids@.len() <= 32,
    ensures
        ({
            let expected = survey_rules(
                community_id@,
                survey_id@,
                strings_view(question_ids@),
                minimum_respondents,
                positive_answers_bps,
                positive_respondents_bps,
                source_community@,
                source_survey@,
                strings_view(source_questions@),
                respondents@.map_values(|r: Respondent| r@),
            );
            match r {
                Ok(v) => expected == Ok::<_, Seq<char>>(v),
                Err(e) => expected == Err::<(Outcome, Summary), _>(e@),
            }
        }),
{
    let ghost sr = respondents@.map_values(|r: Respondent| r@);
    let ghost q = strings_view(question_ids@).len();
    require(
        *community_id == *source_community && *survey_id == *source_survey && same_strings(
            question_ids,
            source_questions,
        ),
        "survey identity or ordered questions mismatch",
    )?;
    require(
        respondents.len() != 0 && respondents.len() <= MAX_RECORDS,
        "survey evidence requires 1–1000 respondents",
    )?;
    let ghost errs = respondent_errors(sr, q);
    let questions = question_ids.len();
    let n = respondents.len();
    let mut positive: u32 = 0;
    for i in 0..n
        invariant
            n == respondents@.len(),
            0 < n <= MAX_RECORDS,
            community_id@ == source_community@,
            survey_id@ == source_survey@,
            strings_view(question_ids@) == strings_view(source_questions@),
            questions == question_ids@.len(),
            questions <= 32,
            q == questions,
            sr == respondents@.map_values(|r: Respondent| r@),
            errs == respondent_errors(sr, q),
            first_some(errs.take(i as int)) is None,
            positive == count_qualifying(sr.take(i as int), q, positive_answers_bps),
            positive <= i,
    {
        proof {
            lemma_first_some_step(errs, i as int);
            assert(sr.take(i + 1).drop_last() =~= sr.take(i as int));
        }
        let respondent = &respondents[i];
        let checked = text(respondent.id.as_str());
        if checked.is_err() {
            proof {
                lemma_first_some_prefix(errs, i + 1);
            }
            return Err(checked.unwrap_err());
        }
        if respondent_repeats_earlier(respondents, i) {
            proof {
                let j = choose|j: int| 0 <= j < i && respondents@[j].id@ == respondents@[i as int].id@;
                assert(sr[j].id == sr[i as int].id);
                lemma_first_some_prefix(errs, i + 1);
            }
            return Err("duplicate respondent".to_owned());
        }
        if !respondent.consented {
            proof {
                lemma_first_some_prefix(errs, i + 1);
            }
            return Err("nonconsenting respondents must not be submitted".to_owned());
        }
        if respondent.positive_answers.len() != questions {
            proof {
                lemma_first_some_prefix(errs, i + 1);
            }
            return Err("incomplete or extra survey answers".to_owned());
        }
        let yes = count_positive_answers(&respondent.positive_answers);
        assert(questions as u64 * positive_answers_bps as u64 <= 32 * 0xffff_ffff) by (nonlinear_arith)
            requires
                questions <= 32,
        ;
        if yes * 10_000 >= questions as u64 * positive_answers_bps as u64 {
            positive = positive + 1;
        }
    }
    proof {
        lemma_first_some_all(errs);
        assert(sr.take(n as int) =~= sr);
    }
    let count = n as u32;
    assert(count as u64 * positive_respondents_bps as u64 <= 1000 * 0xffff_ffff) by (nonlinear_arith)
        requires
            count <= 1000,
    ;
    let outcome = if count < minimum_respondents {
        Outcome::Indeterminate
    } else if positive as u64 * 10_000 >= count as u64 * positive_respondents_bps as u64 {
        Outcome::Met
    } else {
        Outcome::NotMet
    };
    Ok((outcome, Summary::ParticipantSurvey { respondents: count, positive_respondents: positive }))
}

// ---------------------------------------------------------------- whole evaluation

/// The outcome and summary of an input, or the first problem found: policy problems
/// first, then a mismatch of metric and evidence kinds, then the metric's own rules.
pub open spec fn rules(input: SpecInput) -> Result<(Outcome, Summary), Seq<char>> {
    match policy_check(input.policy) {
        Err(e) => Err(e),
        Ok(_) => match (input.policy.metric, input.evidence) {
            (
                SpecMetric::SocialViews { account, window_start, window_end, views_must_exceed },
                SpecEvidence::SocialViews { account: source_account, posts },
            ) => social_rules(
                account,
                window_start,
                window_end,
                views_must_exceed,
                source_account,
                posts,
            ),
            (
                SpecMetric::MarketResolution { market_id, question },
                SpecEvidence::MarketResolution {
                    market_id: source_id,
                    question: source_question,
                    resolution,
                },
            ) => market_rules(market_id, question, source_id, source_question, resolution),
            (
                SpecMetric::ParticipantSurvey {
                    community_id,
                    survey_id,
                    question_ids,
                    minimum_respondents,
                    positive_answers_bps,
                    positive_respondents_bps,
                },
                SpecEvidence::ParticipantSurvey {
                    community_id: source_community,
                    survey_id: source_survey,
                    question_ids: source_questions,
                    respondents,
                },
            ) => survey_rules(
                community_id,
                survey_id,
                question_ids,
                minimum_respondents,
                positive_answers_bps,
                positive_respondents_bps,
                source_community,
                source_survey,
                source_questions,
                respondents,
            ),
            _ => Err("metric and evidence kinds differ"@),
        },
    }
}

/// The size limit on a serialized input: at most `MAX_INPUT_BYTES` bytes.
pub fn check_input_size(bytes: &[u8]) -> (r: Result<(), String>)
    ensures
        r is Ok <==> bytes@.len() <= MAX_INPUT_BYTES,
        r matches Err(e) ==> e@ == "input exceeds 1 MiB"@,
{
    require(bytes.len() <= MAX_INPUT_BYTES, "input exceeds 1 MiB")
}

/// Evaluate the policy's metric over the evidence and commit to both.
///
/// `policy_json` and `evidence_json` are the compact JSON serializations of
/// `input.policy` and `input.evidence`; the journal's digests bind exactly those bytes.
pub fn evaluate(input: &Input, policy_json: &[u8], evidence_json: &[u8]) -> (r: Result<
    Journal,
    String,
>)
    ensures
        match r {
            Ok(j) => {
                &&& rules(input@) == Ok::<_, Seq<char>>((j.outcome, j.summary))
                &&& j.schema_version == SCHEMA_VERSION
                &&& j.policy_sha256@ == commitment_of(policy_domain(), policy_json@)
                &&& j.evidence_sha256@ == commitment_of(evidence_domain(), evidence_json@)
                &&& j.policy_sha256@ == commitment_of("symbiont/policy/v1"@, policy_json@)
                &&& j.evidence_sha256@ == commitment_of("symbiont/evidence/v1"@, evidence_json@)
                &&& is_lower_sha256_hex(encode_utf8(j.policy_sha256@))
                &&& is_lower_sha256_hex(encode_utf8(j.evidence_sha256@))
            },
            Err(e) => rules(input@) == Err::<(Outcome, Summary), _>(e@),
        },
{
    input.policy.validate()?;
    let (outcome, summary) = match &input.policy.metric {
        Metric::SocialViews { account, window_start, window_end, views_must_exceed } => {
            match &input.evidence {
                Evidence::SocialViews { account: source_account, posts } => evaluate_social(
                    account,
                    *window_start,
                    *window_end,
                    *views_must_exceed,
                    source_account,
                    posts,
                )?,
                _ => {
                    return Err("metric and evidence kinds differ".to_owned());
                },
            }
        },
        Metric::MarketResolution { market_id, question } => {
            match &input.evidence {
                Evidence::MarketResolution {
                    market_id: source_id,
                    question: source_question,
                    resolution,
                } => evaluate_market(market_id, question, source_id, source_question, *resolution)?,
                _ => {
                    return Err("metric and evidence kinds differ".to_owned());
                },
            }
        },
        Metric::ParticipantSurvey {
            community_id,
            survey_id,
            question_ids,
            minimum_respondents,
            positive_answers_bps,
            positive_respondents_bps,
        } => {
            match &input.evidence {
                Evidence::ParticipantSurvey {
                    community_id: source_community,
                    survey_id: source_survey,
                    question_ids: source_questions,
                    respondents,
                } => {
                    assert(strings_view(question_ids@).len() == question_ids@.len());
                    evaluate_survey(
                        community_id,
                        survey_id,
                        question_ids,
                        *minimum_respondents,
                        *positive_answers_bps,
                        *positive_respondents_bps,
                        source_community,
                        source_survey,
                        source_questions,
                        respondents,
                    )?
                },
                _ => {
                    return Err("metric and evidence kinds differ".to_owned());
                },
            }
        },
    };
    let policy_sha256 = commitment("symbiont/policy/v1", policy_json);
    let evidence_sha256 = commitment("symbiont/evidence/v1", evidence_json);
    proof {
        lemma_commitment_is_lower_hex(policy_domain(), policy_json@);
        lemma_commitment_is_lower_hex(evidence_domain(), evidence_json@);
    }
    Ok(
        Journal {
            schema_version: SCHEMA_VERSION,
            policy_sha256,
            evidence_sha256,
            outcome,
            summary,
        },
    )
}

} // verus!
