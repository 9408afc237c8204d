//! Properties that span the evaluation, expectation and comparison functions.
use vstd::prelude::*;
use crate::checks::{
    law_first_some_is_first_problem, lemma_first_some_none, lemma_first_some_none_if_all,
    text_message, valid_text,
};
use crate::laws_arith::law_sum_views_bounds;
use crate::digest::{commitment_of, is_lower_sha256_hex};
use vstd::utf8::encode_utf8;
use crate::expect::expectation_check;
use crate::model::{
    Outcome, Resolution, SpecEvidence, SpecInput, SpecMetric, SpecPolicy, SpecRespondent, Summary, MAX_RECORDS,
    SCHEMA_VERSION,
};
use crate::policy::policy_check;
use crate::rules::{
    count_qualifying, evidence_domain, policy_domain, post_error, post_errors, resolution_outcome,
    respondent_error, respondent_errors, rules, sum_views,
};

verus! {

/// Validation comes first: an invalid policy is rejected with its own problem, and every
/// successful evaluation has a valid policy.
pub proof fn law_invalid_policy_is_rejected_first(input: SpecInput)
    ensures
        policy_check(input.policy) is Err ==> rules(input) == Err::<(Outcome, Summary), _>(
            policy_check(input.policy)->Err_0,
        ),
        rules(input) is Ok ==> policy_check(input.policy) is Ok,
{
}

/// An expectation prepared from an input accepts the journal that evaluating the same
/// input produces: the expected policy validates, the version is current, and both
/// digests match. The premise on the evidence digest's spelling is what `evaluate` and
/// `expectation` ensure of the digest they return.
pub proof fn law_expectation_accepts_own_journal(
    input: SpecInput,
    policy_json: Seq<u8>,
    evidence_json: Seq<u8>,
)
    requires
        rules(input) is Ok,
        is_lower_sha256_hex(encode_utf8(commitment_of(evidence_domain(), evidence_json))),
    ensures
        expectation_check(
            SCHEMA_VERSION,
            commitment_of(policy_domain(), policy_json),
            commitment_of(evidence_domain(), evidence_json),
            input.policy,
            commitment_of(evidence_domain(), evidence_json),
            policy_json,
        ) is Ok,
{
    law_invalid_policy_is_rejected_first(input);
}

/// A journal is accepted exactly when the expected policy is valid, the expected evidence
/// digest is 64 characters each `0`–`9` or `a`–`f`, the journal's version is current,
/// its policy digest is the commitment to the expected policy's serialization, and its
/// evidence digest is the expected one.
pub proof fn law_accepted_journal_matches_expectation(
    schema_version: u32,
    policy_sha256: Seq<char>,
    evidence_sha256: Seq<char>,
    expected_policy: SpecPolicy,
    expected_evidence_sha256: Seq<char>,
    expected_policy_json: Seq<u8>,
)
    ensures
        expectation_check(
            schema_version,
            policy_sha256,
            evidence_sha256,
            expected_policy,
            expected_evidence_sha256,
            expected_policy_json,
        ) is Ok <==> {
            &&& policy_check(expected_policy) is Ok
            &&& encode_utf8(expected_evidence_sha256).len() == 64
            &&& forall|i: int|
                0 <= i < 64 ==> {
                    let b = #[trigger] encode_utf8(expected_evidence_sha256)[i];
                    (48 <= b <= 57) || (97 <= b <= 102)
                }
            &&& schema_version == 1
            &&& policy_sha256 == commitment_of("symbiont/policy/v1"@, expected_policy_json)
            &&& evidence_sha256 == expected_evidence_sha256
        },
{
}

/// Social views: a successful evaluation had 1–1000 posts of the policy's account, each
/// with a valid identifier unique among them and published in `[window_start, window_end)`;
/// the summary counts the posts and totals their views, and the metric is met exactly
/// when that total strictly exceeds the threshold.
pub proof fn law_social_journal_reflects_records(input: SpecInput)
    requires
        rules(input) is Ok,
    ensures
        input.policy.metric matches SpecMetric::SocialViews {
            account,
            window_start,
            window_end,
            views_must_exceed,
        } ==> {
            let (outcome, summary) = rules(input)->Ok_0;
            &&& input.evidence matches SpecEvidence::SocialViews { account: a, posts } && {
                &&& a == account
                &&& 0 < posts.len() <= MAX_RECORDS
                &&& forall|i: int|
                    0 <= i < posts.len() ==> {
                        &&& valid_text(#[trigger] posts[i].id)
                        &&& window_start <= posts[i].published_at < window_end
                        &&& forall|j: int| 0 <= j < i ==> posts[j].id != posts[i].id
                    }
                &&& sum_views(posts) <= u64::MAX
                &&& summary == Summary::SocialViews {
                    posts: posts.len() as u32,
                    total_views: sum_views(posts) as u64,
                }
                &&& (outcome == Outcome::Met <==> sum_views(posts) > views_must_exceed)
                &&& outcome != Outcome::Indeterminate
            }
        },
{
    if let SpecMetric::SocialViews { window_start, window_end, .. } = input.policy.metric {
    if let SpecEvidence::SocialViews { posts, .. } = input.evidence {
        let errs = post_errors(posts, window_start, window_end);
        lemma_first_some_none(errs);
        assert forall|i: int| 0 <= i < posts.len() implies {
            &&& valid_text(#[trigger] posts[i].id)
            &&& window_start <= posts[i].published_at < window_end
            &&& forall|j: int| 0 <= j < i ==> posts[j].id != posts[i].id
        } by {
            assert(errs[i] == post_error(posts, i, window_start, window_end));
        }
        let last = posts.len() - 1;
        assert(errs[last] == post_error(posts, last, window_start, window_end));
        assert(posts.take(last + 1) =~= posts);
    }
    }
}

/// Market resolution: a successful evaluation names the policy's market and question,
/// reports the supplied resolution, and maps `yes` to met, `no` to not met, and a pending
/// or cancelled market to indeterminate.
pub proof fn law_market_outcome_follows_resolution(input: SpecInput)
    requires
        rules(input) is Ok,
    ensures
        input.policy.metric matches SpecMetric::MarketResolution { market_id, question } ==> {
            let (outcome, summary) = rules(input)->Ok_0;
            input.evidence matches SpecEvidence::MarketResolution {
                market_id: m,
                question: q,
                resolution,
            } && m == market_id && q == question && outcome == resolution_outcome(resolution)
                && summary == Summary::MarketResolution { resolution }
        },
{
}

/// Participant survey: a successful evaluation had 1–1000 respondents, each with a valid
/// unique identifier, consent, and exactly one answer per question; the positive count
/// never exceeds the respondent count; below the minimum sample the outcome is
/// indeterminate, and otherwise met exactly when `positive * 10000 >= respondents * bps`.
pub proof fn law_survey_journal_reflects_records(input: SpecInput)
    requires
        rules(input) is Ok,
    ensures
        input.policy.metric matches SpecMetric::ParticipantSurvey {
            question_ids,
            minimum_respondents,
            positive_answers_bps,
            positive_respondents_bps,
            ..
        } ==> {
            let (outcome, summary) = rules(input)->Ok_0;
            input.evidence matches SpecEvidence::ParticipantSurvey { respondents, .. } && {
                let count = respondents.len();
                let positive = count_qualifying(
                    respondents,
                    question_ids.len(),
                    positive_answers_bps,
                );
                &&& 0 < count <= MAX_RECORDS
                &&& forall|i: int|
                    0 <= i < count ==> {
                        &&& valid_text(#[trigger] respondents[i].id)
                        &&& respondents[i].consented
                        &&& respondents[i].positive_answers.len() == question_ids.len()
                        &&& forall|j: int| 0 <= j < i ==> respondents[j].id != respondents[i].id
                    }
                &&& positive <= count
                &&& summary == Summary::ParticipantSurvey {
                    respondents: count as u32,
                    positive_respondents: positive as u32,
                }
                &&& (outcome == Outcome::Indeterminate <==> count < minimum_respondents)
                &&& (count >= minimum_respondents ==> (outcome == Outcome::Met <==> positive
                    * 10_000 >= count * positive_respondents_bps))
            }
        },
{
    if let SpecMetric::ParticipantSurvey { question_ids, positive_answers_bps, .. } =
        input.policy.metric {
    if let SpecEvidence::ParticipantSurvey { respondents, .. } = input.evidence {
        let errs = respondent_errors(respondents, question_ids.len());
        lemma_first_some_none(errs);
        assert forall|i: int| 0 <= i < respondents.len() implies {
            &&& valid_text(#[trigger] respondents[i].id)
            &&& respondents[i].consented
            &&& respondents[i].positive_answers.len() == question_ids.len()
            &&& forall|j: int| 0 <= j < i ==> respondents[j].id != respondents[i].id
        } by {
            assert(errs[i] == respondent_error(respondents, i, question_ids.len()));
        }
        lemma_count_qualifying_bound(respondents, question_ids.len(), positive_answers_bps);
    }
    }
}

proof fn lemma_count_qualifying_bound(
    rs: Seq<SpecRespondent>,
    questions: nat,
    bps: u32,
)
    ensures
        count_qualifying(rs, questions, bps) <= rs.len(),
    decreases rs.len(),
{
    if rs.len() > 0 {
        lemma_count_qualifying_bound(rs.drop_last(), questions, bps);
    }
}

/// Market evaluation of a valid policy: evidence naming the same market and question is
/// accepted, `yes` is met, `no` is not met, and a pending or cancelled market is
/// indeterminate, reporting the resolution; any other market or question is refused.
pub proof fn law_market_evaluation(input: SpecInput)
    requires
        policy_check(input.policy) is Ok,
    ensures
        input.policy.metric matches SpecMetric::MarketResolution { market_id, question } ==> (
        input.evidence matches SpecEvidence::MarketResolution {
            market_id: source_id,
            question: source_question,
            resolution,
        } ==> {
            &&& (source_id == market_id && source_question == question) ==> {
                &&& rules(input) is Ok
                &&& rules(input)->Ok_0.1 == Summary::MarketResolution { resolution }
                &&& (rules(input)->Ok_0.0 == Outcome::Met <==> resolution == Resolution::Yes)
                &&& (rules(input)->Ok_0.0 == Outcome::NotMet <==> resolution == Resolution::No)
                &&& (rules(input)->Ok_0.0 == Outcome::Indeterminate <==> (resolution
                    == Resolution::Unresolved || resolution == Resolution::Cancelled))
            }
            &&& !(source_id == market_id && source_question == question) ==> rules(input)
                == Err::<(Outcome, Summary), Seq<char>>("market identity or question mismatch"@)
        }),
{
}

/// For a valid policy, evidence of another kind than the metric is refused.
pub proof fn law_kind_mismatch_is_refused(input: SpecInput)
    requires
        policy_check(input.policy) is Ok,
        !(input.policy.metric is SocialViews && input.evidence is SocialViews),
        !(input.policy.metric is MarketResolution && input.evidence is MarketResolution),
        !(input.policy.metric is ParticipantSurvey && input.evidence is ParticipantSurvey),
    ensures
        rules(input) == Err::<(Outcome, Summary), Seq<char>>("metric and evidence kinds differ"@),
{
}

/// Social evaluation of a valid policy accepts every well-formed record set: evidence
/// for the same account with 1–1000 posts, valid distinct identifiers, every post in
/// `[window_start, window_end)` and a total that fits in 64 bits is accepted, reporting
/// the post count and the total, met exactly when the total exceeds the threshold.
/// Evidence for another account, or with no posts or more than 1000, is refused.
pub proof fn law_social_evaluation_accepts_well_formed_records(input: SpecInput)
    requires
        policy_check(input.policy) is Ok,
    ensures
        input.policy.metric matches SpecMetric::SocialViews {
            account,
            window_start,
            window_end,
            views_must_exceed,
        } ==> (input.evidence matches SpecEvidence::SocialViews { account: a, posts } ==> {
            &&& a != account ==> rules(input) == Err::<(Outcome, Summary), Seq<char>>(
                "account mismatch"@,
            )
            &&& (a == account && !(0 < posts.len() <= 1000)) ==> rules(input) == Err::<
                (Outcome, Summary),
                Seq<char>,
            >("social evidence requires 1–1000 posts"@)
            &&& ({
                &&& a == account
                &&& 0 < posts.len() <= 1000
                &&& forall|i: int| 0 <= i < posts.len() ==> valid_text(#[trigger] posts[i].id)
                &&& forall|i: int, j: int| 0 <= i < j < posts.len() ==> posts[i].id != posts[j].id
                &&& forall|i: int|
                    0 <= i < posts.len() ==> window_start <= #[trigger] posts[i].published_at
                        < window_end
                &&& sum_views(posts) <= u64::MAX
            }) ==> rules(input) == Ok::<(Outcome, Summary), Seq<char>>(
                (
                    if sum_views(posts) > views_must_exceed {
                        Outcome::Met
                    } else {
                        Outcome::NotMet
                    },
                    Summary::SocialViews {
                        posts: posts.len() as u32,
                        total_views: sum_views(posts) as u64,
                    },
                ),
            )
        }),
{
    if let SpecMetric::SocialViews { window_start, window_end, .. } = input.policy.metric {
        if let SpecEvidence::SocialViews { posts, .. } = input.evidence {
            if (forall|i: int| 0 <= i < posts.len() ==> valid_text(#[trigger] posts[i].id)) && (
            forall|i: int, j: int| 0 <= i < j < posts.len() ==> posts[i].id != posts[j].id) && (
            forall|i: int|
                0 <= i < posts.len() ==> window_start <= #[trigger] posts[i].published_at
                    < window_end) && sum_views(posts) <= u64::MAX {
                let errs = post_errors(posts, window_start, window_end);
                assert forall|i: int| 0 <= i < errs.len() implies #[trigger] errs[i] is None by {
                    assert(errs[i] == post_error(posts, i, window_start, window_end));
                    law_sum_views_bounds(posts, i + 1);
                    assert(forall|j: int| 0 <= j < i ==> posts[j].id != posts[i].id);
                }
                lemma_first_some_none_if_all(errs);
            }
        }
    }
}

/// Survey evaluation of a valid policy accepts every well-formed record set: evidence
/// for the same community, survey and ordered questions, with 1–1000 respondents whose
/// identifiers are valid and distinct, who all consented and answered every question,
/// is accepted; it reports the respondent count and the number of respondents with
/// `positive answers * 10000 >= questions * positive_answers_bps`, and is indeterminate
/// below the minimum sample, otherwise met exactly when
/// `positive * 10000 >= respondents * positive_respondents_bps`. Evidence for another
/// community, survey or question order is refused.
pub proof fn law_survey_evaluation_accepts_well_formed_records(input: SpecInput)
    requires
        policy_check(input.policy) is Ok,
    ensures
        input.policy.metric matches SpecMetric::ParticipantSurvey {
            community_id,
            survey_id,
            question_ids,
            minimum_respondents,
            positive_answers_bps,
            positive_respondents_bps,
        } ==> (input.evidence matches SpecEvidence::ParticipantSurvey {
            community_id: c,
            survey_id: s,
            question_ids: q,
            respondents,
        } ==> {
            &&& !(c == community_id && s == survey_id && q == question_ids) ==> rules(input)
                == Err::<(Outcome, Summary), Seq<char>>(
                "survey identity or ordered questions mismatch"@,
            )
            &&& ({
                &&& c == community_id
                &&& s == survey_id
                &&& q == question_ids
                &&& 0 < respondents.len() <= 1000
                &&& forall|i: int|
                    0 <= i < respondents.len() ==> {
                        &&& valid_text(#[trigger] respondents[i].id)
                        &&& respondents[i].consented
                        &&& respondents[i].positive_answers.len() == question_ids.len()
                    }
                &&& forall|i: int, j: int|
                    0 <= i < j < respondents.len() ==> respondents[i].id != respondents[j].id
            }) ==> {
                let count = respondents.len();
                let positive = count_qualifying(
                    respondents,
                    question_ids.len(),
                    positive_answers_bps,
                );
                rules(input) == Ok::<(Outcome, Summary), Seq<char>>(
                    (
                        if count < minimum_respondents {
                            Outcome::Indeterminate
                        } else if positive * 10000 >= count * positive_respondents_bps {
                            Outcome::Met
                        } else {
                            Outcome::NotMet
                        },
                        Summary::ParticipantSurvey {
                            respondents: count as u32,
                            positive_respondents: positive as u32,
                        },
                    ),
                )
            }
        }),
{
    if let SpecMetric::ParticipantSurvey { question_ids, .. } = input.policy.metric {
        if let SpecEvidence::ParticipantSurvey { respondents, .. } = input.evidence {
            if (forall|i: int|
                0 <= i < respondents.len() ==> {
                    &&& valid_text(#[trigger] respondents[i].id)
                    &&& respondents[i].consented
                    &&& respondents[i].positive_answers.len() == question_ids.len()
                }) && (forall|i: int, j: int|
                0 <= i < j < respondents.len() ==> respondents[i].id != respondents[j].id) {
                let errs = respondent_errors(respondents, question_ids.len());
                assert forall|i: int| 0 <= i < errs.len() implies #[trigger] errs[i] is None by {
                    assert(errs[i] == respondent_error(respondents, i, question_ids.len()));
                    assert(forall|j: int| 0 <= j < i ==> respondents[j].id != respondents[i].id);
                }
                lemma_first_some_none_if_all(errs);
            }
        }
    }
}

/// Social evidence is judged post by post in order, and the first post with a problem
/// decides the refusal: an invalid identifier, else an identifier used by an earlier
/// post, else a publication time outside `[window_start, window_end)`, else a running
/// total of views (this post included) beyond 64 bits.
pub proof fn law_social_first_faulty_post_decides(input: SpecInput, k: int)
    requires
        policy_check(input.policy) is Ok,
        input.policy.metric is SocialViews,
        input.evidence is SocialViews,
        input.evidence->SocialViews_account == input.policy.metric->SocialViews_account,
        0 < input.evidence->posts.len() <= 1000,
        0 <= k < input.evidence->posts.len(),
        forall|j: int|
            0 <= j < k ==> {
                &&& valid_text(#[trigger] input.evidence->posts[j].id)
                &&& forall|m: int|
                    0 <= m < j ==> input.evidence->posts[m].id != input.evidence->posts[j].id
                &&& input.policy.metric->window_start <= input.evidence->posts[j].published_at
                    < input.policy.metric->window_end
                &&& sum_views(input.evidence->posts.take(j + 1)) <= u64::MAX
            },
    ensures
        ({
            let posts = input.evidence->posts;
            let p = posts[k];
            if !valid_text(p.id) {
                rules(input) == Err::<(Outcome, Summary), Seq<char>>(text_message())
            } else if exists|m: int| 0 <= m < k && posts[m].id == p.id {
                rules(input) == Err::<(Outcome, Summary), Seq<char>>("duplicate post"@)
            } else if !(input.policy.metric->window_start <= p.published_at
                < input.policy.metric->window_end) {
                rules(input) == Err::<(Outcome, Summary), Seq<char>>(
                    "post is outside the half-open policy window"@,
                )
            } else if sum_views(posts.take(k + 1)) > u64::MAX {
                rules(input) == Err::<(Outcome, Summary), Seq<char>>("view total overflow"@)
            } else {
                true
            }
        }),
{
    let posts = input.evidence->posts;
    let ws = input.policy.metric->window_start;
    let we = input.policy.metric->window_end;
    let errs = post_errors(posts, ws, we);
    assert forall|j: int| 0 <= j < k implies #[trigger] errs[j] is None by {
        assert(errs[j] == post_error(posts, j, ws, we));
    }
    assert(errs[k] == post_error(posts, k, ws, we));
    if errs[k] is Some {
        law_first_some_is_first_problem(errs, k);
    }
}

/// Survey evidence is judged respondent by respondent in order, and the first
/// respondent with a problem decides the refusal: an invalid identifier, else an
/// identifier used by an earlier respondent, else no consent, else a number of answers
/// different from the number of questions. Evidence with no respondents or more than
/// 1000 is refused.
pub proof fn law_survey_first_faulty_respondent_decides(input: SpecInput, k: int)
    requires
        policy_check(input.policy) is Ok,
        input.policy.metric is ParticipantSurvey,
        input.evidence is ParticipantSurvey,
        input.evidence->ParticipantSurvey_community_id
            == input.policy.metric->ParticipantSurvey_community_id,
        input.evidence->ParticipantSurvey_survey_id
            == input.policy.metric->ParticipantSurvey_survey_id,
        input.evidence->ParticipantSurvey_question_ids
            == input.policy.metric->ParticipantSurvey_question_ids,
    ensures
        !(0 < input.evidence->respondents.len() <= 1000) ==> rules(input) == Err::<
            (Outcome, Summary),
            Seq<char>,
        >("survey evidence requires 1–1000 respondents"@),
        ({
            let rs = input.evidence->respondents;
            let q = input.policy.metric->ParticipantSurvey_question_ids.len();
            (0 < rs.len() <= 1000 && 0 <= k < rs.len() && forall|j: int|
                0 <= j < k ==> {
                    &&& valid_text(#[trigger] input.evidence->respondents[j].id)
                    &&& forall|m: int|
                        0 <= m < j ==> input.evidence->respondents[m].id
                            != input.evidence->respondents[j].id
                    &&& input.evidence->respondents[j].consented
                    &&& input.evidence->respondents[j].positive_answers.len()
                        == input.policy.metric->ParticipantSurvey_question_ids.len()
                }) ==> if !valid_text(rs[k].id) {
                rules(input) == Err::<(Outcome, Summary), Seq<char>>(text_message())
            } else if exists|m: int| 0 <= m < k && rs[m].id == rs[k].id {
                rules(input) == Err::<(Outcome, Summary), Seq<char>>("duplicate respondent"@)
            } else if !rs[k].consented {
                rules(input) == Err::<(Outcome, Summary), Seq<char>>(
                    "nonconsenting respondents must not be submitted"@,
                )
            } else if rs[k].positive_answers.len() != q {
                rules(input) == Err::<(Outcome, Summary), Seq<char>>(
                    "incomplete or extra survey answers"@,
                )
            } else {
                true
            }
        }),
{
    let rs = input.evidence->respondents;
    let q = input.policy.metric->ParticipantSurvey_question_ids.len();
    if 0 < rs.len() <= 1000 && 0 <= k < rs.len() {
        let errs = respondent_errors(rs, q);
        if forall|j: int|
            0 <= j < k ==> {
                &&& valid_text(#[trigger] input.evidence->respondents[j].id)
                &&& forall|m: int|
                    0 <= m < j ==> input.evidence->respondents[m].id
                        != input.evidence->respondents[j].id
                &&& input.evidence->respondents[j].consented
                &&& input.evidence->respondents[j].positive_answers.len()
                    == input.policy.metric->ParticipantSurvey_question_ids.len()
            } {
            assert forall|j: int| 0 <= j < k implies #[trigger] errs[j] is None by {
                assert(errs[j] == respondent_error(rs, j, q));
            }
            assert(errs[k] == respondent_error(rs, k, q));
            if errs[k] is Some {
                law_first_some_is_first_problem(errs, k);
            }
        }
    }
}

} // verus!
