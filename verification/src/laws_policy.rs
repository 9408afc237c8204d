//! Laws on which policies and identifier lists are accepted.
use vstd::prelude::*;
use vstd::utf8::{encode_utf8, is_ascii_chars, is_ascii_chars_encode_utf8};
use crate::checks::{
    law_first_some_is_first_problem, lemma_utf8_len_bounds, first_some, lemma_first_some_none, lemma_first_some_none_if_all, list_errors,
    list_item_error, text_message, unique_list_check, valid_text,
};
use crate::model::{SpecMetric, SpecPolicy};
use crate::policy::policy_check;

verus! {

/// An identifier list is accepted exactly when it has between one and `max` entries,
/// every entry is valid text, and no two entries are equal.
pub proof fn law_unique_list_acceptance(ids: Seq<Seq<char>>, max: int)
    ensures
        unique_list_check(ids, max) is Ok <==> {
            &&& 0 < ids.len() <= max
            &&& forall|i: int| 0 <= i < ids.len() ==> valid_text(#[trigger] ids[i])
            &&& forall|i: int, j: int| 0 <= i < j < ids.len() ==> ids[i] != ids[j]
        },
        !(0 < ids.len() <= max) ==> unique_list_check(ids, max) == Err::<(), Seq<char>>(
            "invalid list length"@,
        ),
{
    let errs = list_errors(ids);
    if 0 < ids.len() <= max {
        if first_some(errs) is None {
            lemma_first_some_none(errs);
            assert forall|i: int| 0 <= i < ids.len() implies valid_text(#[trigger] ids[i]) by {
                assert(errs[i] == list_item_error(ids, i));
            }
            assert forall|i: int, j: int| 0 <= i < j < ids.len() implies ids[i] != ids[j] by {
                assert(errs[j] == list_item_error(ids, j));
            }
        }
        if (forall|i: int| 0 <= i < ids.len() ==> valid_text(#[trigger] ids[i])) && (forall|
            i: int,
            j: int,
        | 0 <= i < j < ids.len() ==> ids[i] != ids[j]) {
            assert forall|i: int| 0 <= i < errs.len() implies #[trigger] errs[i] is None by {
                assert(errs[i] == list_item_error(ids, i));
                assert(valid_text(ids[i]));
                assert(forall|j: int| 0 <= j < i ==> ids[j] != ids[i]);
            }
            lemma_first_some_none_if_all(errs);
        }
    }
}

/// A policy is accepted exactly when its schema version is 1, its run identifier is valid
/// text, and its metric is well formed: a valid account and a window with
/// `window_start < window_end`; a valid market identifier and question; or valid survey
/// identifiers, 1–32 valid distinct question identifiers, a minimum sample of 1–1000 and
/// both thresholds within 1–10000 basis points.
pub proof fn law_policy_acceptance(p: SpecPolicy)
    ensures
        policy_check(p) is Ok <==> {
            &&& p.schema_version == 1
            &&& valid_text(p.run_id)
            &&& match p.metric {
                SpecMetric::SocialViews { account, window_start, window_end, .. } => {
                    valid_text(account) && window_start < window_end
                },
                SpecMetric::MarketResolution { market_id, question } => {
                    valid_text(market_id) && valid_text(question)
                },
                SpecMetric::ParticipantSurvey {
                    community_id,
                    survey_id,
                    question_ids,
                    minimum_respondents,
                    positive_answers_bps,
                    positive_respondents_bps,
                } => {
                    &&& valid_text(community_id)
                    &&& valid_text(survey_id)
                    &&& 0 < question_ids.len() <= 32
                    &&& forall|i: int|
                        0 <= i < question_ids.len() ==> valid_text(#[trigger] question_ids[i])
                    &&& forall|i: int, j: int|
                        0 <= i < j < question_ids.len() ==> question_ids[i] != question_ids[j]
                    &&& 1 <= minimum_respondents <= 1000
                    &&& 1 <= positive_answers_bps <= 10000
                    &&& 1 <= positive_respondents_bps <= 10000
                },
            }
        },
{
    if let SpecMetric::ParticipantSurvey { question_ids, .. } = p.metric {
        law_unique_list_acceptance(question_ids, 32);
    }
}

/// The reported problem of a rejected policy: an unsupported version first, then an
/// invalid run identifier, then, for social views with valid identifiers, a window whose
/// start is not before its end; for surveys whose identifiers and questions are valid, a
/// minimum sample outside 1–1000, then a threshold outside 1–10000 basis points.
pub proof fn law_policy_problems(p: SpecPolicy)
    ensures
        p.schema_version != 1 ==> policy_check(p) == Err::<(), Seq<char>>(
            "unsupported schema version"@,
        ),
        p.schema_version == 1 && !valid_text(p.run_id) ==> policy_check(p) == Err::<
            (),
            Seq<char>,
        >(text_message()),
        (p.schema_version == 1 && valid_text(p.run_id)) ==> (p.metric matches SpecMetric::SocialViews {
            account,
            window_start,
            window_end,
            ..
        } ==> (valid_text(account) && window_start >= window_end ==> policy_check(p) == Err::<
            (),
            Seq<char>,
        >("window_start must precede window_end"@))),
        (p.schema_version == 1 && valid_text(p.run_id)) ==> (p.metric matches SpecMetric::ParticipantSurvey {
            community_id,
            survey_id,
            question_ids,
            minimum_respondents,
            positive_answers_bps,
            positive_respondents_bps,
        } ==> (valid_text(community_id) && valid_text(survey_id) && unique_list_check(
            question_ids,
            32,
        ) is Ok ==> {
            &&& !(1 <= minimum_respondents <= 1000) ==> policy_check(p) == Err::<(), Seq<char>>(
                "minimum_respondents must be 1–1000"@,
            )
            &&& (1 <= minimum_respondents <= 1000 && !(1 <= positive_answers_bps <= 10000 && 1
                <= positive_respondents_bps <= 10000)) ==> policy_check(p) == Err::<
                (),
                Seq<char>,
            >("percentage thresholds must be 1–10000 basis points"@)
        })),
{
}

/// What valid identifier text is: 1–256 UTF-8 bytes with no control character
/// (U+0000–U+001F, U+007F–U+009F), neither starting nor ending with one of the Unicode
/// White_Space characters; and any 1–256 printable ASCII characters with no space at
/// either end are valid.
pub proof fn law_text_rules(s: Seq<char>)
    ensures
        valid_text(s) ==> {
            &&& 1 <= s.len()
            &&& 1 <= encode_utf8(s).len() <= 256
            &&& forall|i: int|
                0 <= i < s.len() ==> {
                    let c = #[trigger] s[i] as int;
                    !(c <= 0x1f) && !(0x7f <= c <= 0x9f)
                }
            &&& forall|i: int|
                (i == 0 || i == s.len() - 1) ==> {
                    let u = #[trigger] s[i] as int;
                    !(9 <= u <= 13 || u == 0x20 || u == 0x85 || u == 0xa0 || u == 0x1680 || (0x2000
                        <= u <= 0x200a) || u == 0x2028 || u == 0x2029 || u == 0x202f || u
                        == 0x205f || u == 0x3000)
                }
        },
        ({
            &&& 0 < s.len() <= 256
            &&& forall|i: int| 0 <= i < s.len() ==> 0x20 <= #[trigger] (s[i] as int) <= 0x7e
            &&& s[0] as int != 0x20
            &&& s.last() as int != 0x20
        }) ==> valid_text(s),
{
    lemma_utf8_len_bounds(s);
    if 0 < s.len() <= 256 && (forall|i: int| 0 <= i < s.len() ==> 0x20 <= #[trigger] (s[i] as int)
        <= 0x7e) {
        assert forall|i: int| 0 <= i < s.len() implies '\0' <= #[trigger] s[i] <= '\u{7f}' by {
            assert(0x20 <= s[i] as int <= 0x7e);
        }
        assert(is_ascii_chars(s));
        is_ascii_chars_encode_utf8(s);
    }
}

/// In an identifier list of acceptable length, the first faulty entry decides the
/// refusal: invalid text, else a repeat of an earlier entry.
pub proof fn law_unique_list_first_fault_decides(ids: Seq<Seq<char>>, max: int, k: int)
    requires
        0 < ids.len() <= max,
        0 <= k < ids.len(),
        forall|j: int|
            0 <= j < k ==> valid_text(#[trigger] ids[j]) && forall|m: int|
                0 <= m < j ==> ids[m] != ids[j],
    ensures
        !valid_text(ids[k]) ==> unique_list_check(ids, max) == Err::<(), Seq<char>>(
            text_message(),
        ),
        valid_text(ids[k]) && (exists|m: int| 0 <= m < k && ids[m] == ids[k])
            ==> unique_list_check(ids, max) == Err::<(), Seq<char>>("duplicate identifier"@),
{
    let errs = list_errors(ids);
    assert forall|j: int| 0 <= j < k implies #[trigger] errs[j] is None by {
        assert(errs[j] == list_item_error(ids, j));
    }
    assert(errs[k] == list_item_error(ids, k));
    if errs[k] is Some {
        law_first_some_is_first_problem(errs, k);
    }
}

} // verus!
