//! Policy validation.
use vstd::prelude::*;
use crate::checks::{require, text, text_message, unique_list_check, unique_strings, valid_text};
use crate::model::{Metric, Policy, SpecMetric, SpecPolicy, MAX_QUESTIONS, MAX_RECORDS, SCHEMA_VERSION};

verus! {

/// Whether a policy is acceptable; otherwise the first problem found.
pub open spec fn policy_check(p: SpecPolicy) -> Result<(), Seq<char>> {
    if p.schema_version != SCHEMA_VERSION {
        Err("unsupported schema version"@)
    } else if !valid_text(p.run_id) {
        Err(text_message())
    } else {
        metric_check(p.metric)
    }
}

/// Whether a metric's parameters are acceptable; otherwise the first problem found.
pub open spec fn metric_check(m: SpecMetric) -> Result<(), Seq<char>> {
    match m {
        SpecMetric::SocialViews { account, window_start, window_end, .. } => {
            if !valid_text(account) {
                Err(text_message())
            } else if !(window_start < window_end) {
                Err("window_start must precede window_end"@)
            } else {
                Ok(())
            }
        },
        SpecMetric::MarketResolution { market_id, question } => {
            if !valid_text(market_id) || !valid_text(question) {
                Err(text_message())
            } else {
                Ok(())
            }
        },
        SpecMetric::ParticipantSurvey {
            community_id,
            survey_id,
            question_ids,
            minimum_respondents,
            positive_answers_bps,
            positive_respondents_bps,
        } => {
            if !valid_text(community_id) || !valid_text(survey_id) {
                Err(text_message())
            } else {
                match unique_list_check(question_ids, MAX_QUESTIONS as int) {
                    Err(e) => Err(e),
                    Ok(_) => {
                        if !(1 <= minimum_respondents <= MAX_RECORDS) {
                            Err("minimum_respondents must be 1–1000"@)
                        } else if !(1 <= positive_answers_bps <= 10_000 && 1
                            <= positive_respondents_bps <= 10_000) {
                            Err("percentage thresholds must be 1–10000 basis points"@)
                        } else {
                            Ok(())
                        }
                    },
                }
            }
        },
    }
}

impl Policy {
    /// Check the schema version, the identifiers, the window and the survey thresholds.
    pub fn validate(&self) -> (r: Result<(), String>)
        ensures
            match r {
                Ok(_) => policy_check(self@) is Ok,
                Err(e) => policy_check(self@) == Err::<(), _>(e@),
            },
    {
        require(self.schema_version == SCHEMA_VERSION, "unsupported schema version")?;
        text(self.run_id.as_str())?;
        match &self.metric {
            Metric::SocialViews { account, window_start, window_end, .. } => {
                text(account.as_str())?;
                require(*window_start < *window_end, "window_start must precede window_end")
            },
            Metric::MarketResolution { market_id, question } => {
                text(market_id.as_str())?;
                text(question.as_str())
            },
            Metric::ParticipantSurvey {
                community_id,
                survey_id,
                question_ids,
                minimum_respondents,
                positive_answers_bps,
                positive_respondents_bps,
            } => {
                text(community_id.as_str())?;
                text(survey_id.as_str())?;
                unique_strings(question_ids.as_slice(), MAX_QUESTIONS)?;
                require(
                    1 <= *minimum_respondents && *minimum_respondents <= MAX_RECORDS as u32,
                    "minimum_respondents must be 1–1000",
                )?;
                require(
                    1 <= *positive_answers_bps && *positive_answers_bps <= 10_000 && 1
                        <= *positive_respondents_bps && *positive_respondents_bps <= 10_000,
                    "percentage thresholds must be 1–10000 basis points",
                )
            },
        }
    }
}

} // verus!
