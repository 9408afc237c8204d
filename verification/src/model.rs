//! The policy, evidence and result types, and their mathematical models.
use vstd::prelude::*;

verus! {

/// The only schema version these rules accept.
pub const SCHEMA_VERSION: u32 = 1;
/// Largest accepted serialized input, in bytes.
pub const MAX_INPUT_BYTES: usize = 1_048_576;
/// Largest number of posts or respondents in one piece of evidence.
pub const MAX_RECORDS: usize = 1_000;
/// Largest number of survey questions.
pub const MAX_QUESTIONS: usize = 32;

/// A policy together with the evidence to evaluate against it.
#[derive(Debug, Clone, PartialEq, Eq)]
pub struct Input {
    pub policy: Policy,
    pub evidence: Evidence,
}

/// What is measured and under which evaluation identifier.
#[derive(Debug, Clone, PartialEq, Eq)]
pub struct Policy {
    pub schema_version: u32,
    /// A verifier-chosen identifier for this evaluation; not a trusted clock.
    pub run_id: String,
    pub metric: Metric,
}

/// The metric a policy asks about.
#[derive(Debug, Clone, PartialEq, Eq)]
pub enum Metric {
    SocialViews { account: String, window_start: u64, window_end: u64, views_must_exceed: u64 },
    MarketResolution { market_id: String, question: String },
    ParticipantSurvey {
        community_id: String,
        survey_id: String,
        question_ids: Vec<String>,
        minimum_respondents: u32,
        positive_answers_bps: u32,
        positive_respondents_bps: u32,
    },
}

/// The individual records supplied for a metric.
#[derive(Debug, Clone, PartialEq, Eq)]
pub enum Evidence {
    SocialViews { account: String, posts: Vec<Post> },
    MarketResolution { market_id: String, question: String, resolution: Resolution },
    ParticipantSurvey {
        community_id: String,
        survey_id: String,
        question_ids: Vec<String>,
        respondents: Vec<Respondent>,
    },
}

/// One post of an account.
#[derive(Debug, Clone, PartialEq, Eq)]
pub struct Post {
    pub id: String,
    pub published_at: u64,
    pub views: u64,
}

/// One survey respondent.
#[derive(Debug, Clone, PartialEq, Eq)]
pub struct Respondent {
    /// Opaque local identifier. Uniqueness is checked, real-world identity is not.
    pub id: String,
    pub consented: bool,
    /// Classified answers, in the exact order declared in question_ids.
    pub positive_answers: Vec<bool>,
}

/// How a market was resolved.
#[derive(Debug, Clone, Copy, PartialEq, Eq, Structural)]
pub enum Resolution {
    Yes,
    No,
    Unresolved,
    Cancelled,
}

/// Whether the metric was met.
#[derive(Debug, Clone, Copy, PartialEq, Eq, Structural)]
pub enum Outcome {
    Met,
    NotMet,
    Indeterminate,
}

/// Aggregates derived from the records.
#[derive(Debug, Clone, Copy, PartialEq, Eq, Structural)]
pub enum Summary {
    SocialViews { posts: u32, total_views: u64 },
    MarketResolution { resolution: Resolution },
    ParticipantSurvey { respondents: u32, positive_respondents: u32 },
}

/// The public result of an evaluation: outcome, aggregates and commitments.
#[derive(Debug, Clone, PartialEq, Eq)]
pub struct Journal {
    pub schema_version: u32,
    pub policy_sha256: String,
    pub evidence_sha256: String,
    pub outcome: Outcome,
    pub summary: Summary,
}

/// Retained independently by the verifier, never trusted merely because a prover supplied it.
#[derive(Debug, Clone, PartialEq, Eq)]
pub struct Expectation {
    pub policy: Policy,
    pub evidence_sha256: String,
}

/// Model of a post.
pub struct SpecPost {
    pub id: Seq<char>,
    pub published_at: u64,
    pub views: u64,
}

/// Model of a respondent.
pub struct SpecRespondent {
    pub id: Seq<char>,
    pub consented: bool,
    pub positive_answers: Seq<bool>,
}

/// Model of a metric.
pub enum SpecMetric {
    SocialViews { account: Seq<char>, window_start: u64, window_end: u64, views_must_exceed: u64 },
    MarketResolution { market_id: Seq<char>, question: Seq<char> },
    ParticipantSurvey {
        community_id: Seq<char>,
        survey_id: Seq<char>,
        question_ids: Seq<Seq<char>>,
        minimum_respondents: u32,
        positive_answers_bps: u32,
        positive_respondents_bps: u32,
    },
}

/// Model of evidence.
pub enum SpecEvidence {
    SocialViews { account: Seq<char>, posts: Seq<SpecPost> },
    MarketResolution { market_id: Seq<char>, question: Seq<char>, resolution: Resolution },
    ParticipantSurvey {
        community_id: Seq<char>,
        survey_id: Seq<char>,
        question_ids: Seq<Seq<char>>,
        respondents: Seq<SpecRespondent>,
    },
}

/// Model of a policy.
pub struct SpecPolicy {
    pub schema_version: u32,
    pub run_id: Seq<char>,
    pub metric: SpecMetric,
}

/// Model of an input.
pub struct SpecInput {
    pub policy: SpecPolicy,
    pub evidence: SpecEvidence,
}

/// The models of a list of strings.
pub open spec fn strings_view(v: Seq<String>) -> Seq<Seq<char>> {
    v.map_values(|s: String| s@)
}

impl View for Post {
    type V = SpecPost;

    open spec fn view(&self) -> SpecPost {
        SpecPost { id: self.id@, published_at: self.published_at, views: self.views }
    }
}

impl View for Respondent {
    type V = SpecRespondent;

    open spec fn view(&self) -> SpecRespondent {
        SpecRespondent {
            id: self.id@,
            consented: self.consented,
            positive_answers: self.positive_answers@,
        }
    }
}

impl View for Metric {
    type V = SpecMetric;

    open spec fn view(&self) -> SpecMetric {
        match self {
            Metric::SocialViews { account, window_start, window_end, views_must_exceed } =>
                SpecMetric::SocialViews {
                account: account@,
                window_start: *window_start,
                window_end: *window_end,
                views_must_exceed: *views_must_exceed,
            },
            Metric::MarketResolution { market_id, question } => SpecMetric::MarketResolution {
                market_id: market_id@,
                question: question@,
            },
            Metric::ParticipantSurvey {
                community_id,
                survey_id,
                question_ids,
                minimum_respondents,
                positive_answers_bps,
                positive_respondents_bps,
            } => SpecMetric::ParticipantSurvey {
                community_id: community_id@,
                survey_id: survey_id@,
                question_ids: strings_view(question_ids@),
                minimum_respondents: *minimum_respondents,
                positive_answers_bps: *positive_answers_bps,
                positive_respondents_bps: *positive_respondents_bps,
            },
        }
    }
}

impl View for Evidence {
    type V = SpecEvidence;

    open spec fn view(&self) -> SpecEvidence {
        match self {
            Evidence::SocialViews { account, posts } => SpecEvidence::SocialViews {
                account: account@,
                posts: posts@.map_values(|p: Post| p@),
            },
            Evidence::MarketResolution { market_id, question, resolution } =>
                SpecEvidence::MarketResolution {
                market_id: market_id@,
                question: question@,
                resolution: *resolution,
            },
            Evidence::ParticipantSurvey { community_id, survey_id, question_ids, respondents } =>
                SpecEvidence::ParticipantSurvey {
                community_id: community_id@,
                survey_id: survey_id@,
                question_ids: strings_view(question_ids@),
                respondents: respondents@.map_values(|r: Respondent| r@),
            },
        }
    }
}

impl View for Policy {
    type V = SpecPolicy;

    open spec fn view(&self) -> SpecPolicy {
        SpecPolicy { schema_version: self.schema_version, run_id: self.run_id@, metric: self.metric@ }
    }
}

impl View for Input {
    type V = SpecInput;

    open spec fn view(&self) -> SpecInput {
        SpecInput { policy: self.policy@, evidence: self.evidence@ }
    }
}

} // verus!
