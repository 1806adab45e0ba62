//! Trust scores: weighted aggregation of metrics and classification into levels.
//!
//! Scores, metric values, weights and confidences are fixed-point numbers in
//! thousandths: `SCORE_SCALE` stands for 1.0.
use vstd::prelude::*;

use crate::clock;

verus! {

/// The fixed-point unit of every score: 1000 thousandths make 1.0.
pub const SCORE_SCALE: u32 = 1000;

/// Default weights of the five standard metrics, in thousandths.
pub const DEFAULT_DIRECT_WEIGHT: u32 = 300;
pub const DEFAULT_INDIRECT_WEIGHT: u32 = 200;
pub const DEFAULT_HISTORICAL_WEIGHT: u32 = 200;
pub const DEFAULT_BEHAVIORAL_WEIGHT: u32 = 200;
pub const DEFAULT_IDENTITY_WEIGHT: u32 = 100;

/// Discrete, totally ordered trust classification.
#[derive(Debug, Clone, Copy, PartialEq, Eq, Structural, PartialOrd, Ord, Hash)]
pub enum TrustLevel {
    NoTrust,
    Low,
    Medium,
    High,
    VeryHigh,
}

impl TrustLevel {
    /// Position of the level on the scale `NoTrust < Low < Medium < High < VeryHigh`.
    pub open spec fn spec_rank(self) -> nat {
        match self {
            TrustLevel::NoTrust => 0,
            TrustLevel::Low => 1,
            TrustLevel::Medium => 2,
            TrustLevel::High => 3,
            TrustLevel::VeryHigh => 4,
        }
    }

    /// `self` is at or above `other` on the scale.
    pub open spec fn spec_at_least(self, other: TrustLevel) -> bool {
        self.spec_rank() >= other.spec_rank()
    }

    pub fn rank(&self) -> (r: u8)
        ensures
            r == self.spec_rank(),
    {
        match self {
            TrustLevel::NoTrust => 0,
            TrustLevel::Low => 1,
            TrustLevel::Medium => 2,
            TrustLevel::High => 3,
            TrustLevel::VeryHigh => 4,
        }
    }

    /// Policies compare levels with `>=`: this is that comparison.
    pub fn at_least(&self, other: TrustLevel) -> (r: bool)
        ensures
            r == self.spec_at_least(other),
    {
        self.rank() >= other.rank()
    }
}

impl Default for TrustLevel {
    fn default() -> (r: TrustLevel)
        ensures
            r == TrustLevel::NoTrust,
    {
        TrustLevel::NoTrust
    }
}

/// The order on trust levels is a total order, and it is exactly
/// `NoTrust < Low < Medium < High < VeryHigh`.
pub proof fn lemma_trust_level_total_order(a: TrustLevel, b: TrustLevel, c: TrustLevel)
    ensures
        a.spec_at_least(a),
        a.spec_at_least(b) || b.spec_at_least(a),
        a.spec_at_least(b) && b.spec_at_least(a) ==> a == b,
        a.spec_at_least(b) && b.spec_at_least(c) ==> a.spec_at_least(c),
        TrustLevel::Low.spec_rank() > TrustLevel::NoTrust.spec_rank(),
        TrustLevel::Medium.spec_rank() > TrustLevel::Low.spec_rank(),
        TrustLevel::High.spec_rank() > TrustLevel::Medium.spec_rank(),
        TrustLevel::VeryHigh.spec_rank() > TrustLevel::High.spec_rank(),
{
}

/// Errors of the trust engine and the trust lifecycle.
#[derive(Debug, Clone, PartialEq, Eq)]
pub enum TrustError {
    InvalidTrustScore(String),
    InvalidTrustLevel(String),
    InvalidAttributes(String),
    InvalidRelationship(String),
    DelegationError(String),
    VerificationError(String),
    InvalidStateTransition(String),
    LifecycleError(String),
    ConfigError(String),
    InternalError(String),
}

/// The five standard sub-scores plus named custom metrics, each in thousandths.
#[derive(Debug)]
pub struct TrustMetrics {
    pub direct_trust: u32,
    pub indirect_trust: u32,
    pub historical_trust: u32,
    pub behavioral_trust: u32,
    pub identity_verification: u32,
    /// Named custom metrics. This is a list, not a map: every entry counts, so a
    /// name given twice contributes twice; keep names distinct for map semantics.
    pub custom_metrics: Vec<(String, u32)>,
}

impl Default for TrustMetrics {
    fn default() -> (r: TrustMetrics)
        ensures
            r.direct_trust == 0 && r.indirect_trust == 0 && r.historical_trust == 0,
            r.behavioral_trust == 0 && r.identity_verification == 0,
            r.custom_metrics@.len() == 0,
    {
        TrustMetrics {
            direct_trust: 0,
            indirect_trust: 0,
            historical_trust: 0,
            behavioral_trust: 0,
            identity_verification: 0,
            custom_metrics: Vec::new(),
        }
    }
}

/// The weight given to `name`: the first entry of `weights` with that name.
pub open spec fn weight_lookup(weights: Seq<(String, u32)>, name: Seq<char>) -> Option<u32>
    decreases weights.len(),
{
    if weights.len() == 0 {
        Option::None
    } else if weights[0].0@ == name {
        Option::Some(weights[0].1)
    } else {
        weight_lookup(weights.drop_first(), name)
    }
}

/// The weight used for a standard metric: the caller's, else the default.
pub open spec fn standard_weight(weights: Seq<(String, u32)>, name: Seq<char>, default: u32) -> int {
    match weight_lookup(weights, name) {
        Option::Some(w) => w as int,
        Option::None => default as int,
    }
}

/// Sum of `value * weight` over the custom metrics that have a weight.
pub open spec fn custom_weighted_sum(custom: Seq<(String, u32)>, weights: Seq<(String, u32)>) -> int
    decreases custom.len(),
{
    if custom.len() == 0 {
        0
    } else {
        custom_weighted_sum(custom.drop_last(), weights) + match weight_lookup(
            weights,
            custom.last().0@,
        ) {
            Option::Some(w) => custom.last().1 * w,
            Option::None => 0,
        }
    }
}

/// Sum of the weights of the custom metrics that have a weight.
pub open spec fn custom_weight_total(custom: Seq<(String, u32)>, weights: Seq<(String, u32)>) -> int
    decreases custom.len(),
{
    if custom.len() == 0 {
        0
    } else {
        custom_weight_total(custom.drop_last(), weights) + match weight_lookup(
            weights,
            custom.last().0@,
        ) {
            Option::Some(w) => w as int,
            Option::None => 0,
        }
    }
}

pub open spec fn standard_weight_total(weights: Seq<(String, u32)>) -> int {
    standard_weight(weights, "direct_trust"@, DEFAULT_DIRECT_WEIGHT) + standard_weight(
        weights,
        "indirect_trust"@,
        DEFAULT_INDIRECT_WEIGHT,
    ) + standard_weight(weights, "historical_trust"@, DEFAULT_HISTORICAL_WEIGHT)
        + standard_weight(weights, "behavioral_trust"@, DEFAULT_BEHAVIORAL_WEIGHT)
        + standard_weight(weights, "identity_verification"@, DEFAULT_IDENTITY_WEIGHT)
}

pub open spec fn standard_weighted_sum(m: TrustMetrics, weights: Seq<(String, u32)>) -> int {
    m.direct_trust * standard_weight(weights, "direct_trust"@, DEFAULT_DIRECT_WEIGHT)
        + m.indirect_trust * standard_weight(weights, "indirect_trust"@, DEFAULT_INDIRECT_WEIGHT)
        + m.historical_trust * standard_weight(
        weights,
        "historical_trust"@,
        DEFAULT_HISTORICAL_WEIGHT,
    ) + m.behavioral_trust * standard_weight(weights, "behavioral_trust"@, DEFAULT_BEHAVIORAL_WEIGHT)
        + m.identity_verification * standard_weight(
        weights,
        "identity_verification"@,
        DEFAULT_IDENTITY_WEIGHT,
    )
}

/// The weighted mean of the metrics, rounded down; 0 when no weight is used.
pub open spec fn weighted_score(m: TrustMetrics, weights: Seq<(String, u32)>) -> int {
    let total = standard_weight_total(weights) + custom_weight_total(m.custom_metrics@, weights);
    let sum = standard_weighted_sum(m, weights) + custom_weighted_sum(m.custom_metrics@, weights);
    if total > 0 {
        sum / total
    } else {
        0
    }
}

/// Looks `name` up in `weights`.
fn find_weight(weights: &Vec<(String, u32)>, name: &String) -> (r: Option<u32>)
    ensures
        r == weight_lookup(weights@, name@),
{
    let mut i: usize = 0;
    assert(weights@.subrange(0, weights@.len() as int) =~= weights@);
    while i < weights.len()
        invariant
            i <= weights@.len(),
            weight_lookup(weights@, name@) == weight_lookup(weights@.subrange(i as int, weights@.len() as int), name@),
        decreases weights.len() - i,
    {
        assert(weights@.subrange(i as int, weights@.len() as int).drop_first() =~= weights@.subrange(
            i + 1,
            weights@.len() as int,
        ));
        if weights[i].0 == *name {
            return Some(weights[i].1);
        }
        i = i + 1;
    }
    None
}

/// The weight of a standard metric: the caller's, else `default`.
fn weight_or(weights: &Vec<(String, u32)>, name: &str, default: u32) -> (r: u32)
    ensures
        r == standard_weight(weights@, name@, default),
{
    match find_weight(weights, &name.to_owned()) {
        Some(w) => w,
        None => default,
    }
}

proof fn lemma_product_bound(v: u32, w: u32)
    ensures
        (v as int) * (w as int) <= 0xFFFF_FFFF * (w as int),
        (v as int) * (w as int) <= 0xFFFF_FFFE_0000_0001,
{
    assert((v as int) * (w as int) <= 0xFFFF_FFFF * (w as int)) by (nonlinear_arith)
        requires
            v <= 0xFFFF_FFFF,
            w >= 0,
    ;
    assert(0xFFFF_FFFF * (w as int) <= 0xFFFF_FFFF * 0xFFFF_FFFF) by (nonlinear_arith)
        requires
            w <= 0xFFFF_FFFF,
    ;
}

proof fn lemma_mean_bound(sum: int, total: int)
    requires
        total > 0,
        0 <= sum <= total * 0xFFFF_FFFF,
    ensures
        0 <= sum / total <= 0xFFFF_FFFF,
{
    assert(sum / total <= 0xFFFF_FFFF) by (nonlinear_arith)
        requires
            total > 0,
            0 <= sum <= total * 0xFFFF_FFFF,
    ;
    assert(sum / total >= 0) by (nonlinear_arith)
        requires
            total > 0,
            sum >= 0,
    ;
}

impl TrustMetrics {
    /// The weighted mean of these metrics under `weights` (missing standard weights
    /// take their defaults; a custom metric counts only when it has a weight). When
    /// `weights` names a metric more than once, the first entry is used.
    #[verifier::rlimit(40)]
    pub fn weighted(&self, weights: &Vec<(String, u32)>) -> (r: u32)
        ensures
            r == weighted_score(*self, weights@),
    {
        let wd = weight_or(weights, "direct_trust", DEFAULT_DIRECT_WEIGHT);
        let wi = weight_or(weights, "indirect_trust", DEFAULT_INDIRECT_WEIGHT);
        let wh = weight_or(weights, "historical_trust", DEFAULT_HISTORICAL_WEIGHT);
        let wb = weight_or(weights, "behavioral_trust", DEFAULT_BEHAVIORAL_WEIGHT);
        let wv = weight_or(weights, "identity_verification", DEFAULT_IDENTITY_WEIGHT);
        proof {
            lemma_product_bound(self.direct_trust, wd);
            lemma_product_bound(self.indirect_trust, wi);
            lemma_product_bound(self.historical_trust, wh);
            lemma_product_bound(self.behavioral_trust, wb);
            lemma_product_bound(self.identity_verification, wv);
        }
        let mut sum: u128 = self.direct_trust as u128 * wd as u128 + self.indirect_trust as u128
            * wi as u128 + self.historical_trust as u128 * wh as u128 + self.behavioral_trust as u128
            * wb as u128 + self.identity_verification as u128 * wv as u128;
        let mut total: u128 = wd as u128 + wi as u128 + wh as u128 + wb as u128 + wv as u128;
        let custom = &self.custom_metrics;
        let mut i: usize = 0;
        while i < custom.len()
            invariant
                i <= custom@.len(),
                total == standard_weight_total(weights@) + custom_weight_total(
                    custom@.subrange(0, i as int),
                    weights@,
                ),
                sum == standard_weighted_sum(*self, weights@) + custom_weighted_sum(
                    custom@.subrange(0, i as int),
                    weights@,
                ),
                custom == &self.custom_metrics,
                sum <= total * 0xFFFF_FFFF,
                total <= (i + 5) * 0xFFFF_FFFF,
                sum <= (i + 5) * 0xFFFF_FFFE_0000_0001,
            decreases custom.len() - i,
        {
            assert(custom@.subrange(0, i + 1).drop_last() =~= custom@.subrange(0, i as int));
            let name = &custom[i].0;
            let value = custom[i].1;
            match find_weight(weights, name) {
                Some(w) => {
                    proof {
                        lemma_product_bound(value, w);
                    }
                    sum = sum + value as u128 * w as u128;
                    total = total + w as u128;
                },
                None => {},
            }
            i = i + 1;
        }
        assert(custom@.subrange(0, custom@.len() as int) =~= custom@);
        if total > 0 {
            proof {
                lemma_mean_bound(sum as int, total as int);
            }
            (sum / total) as u32
        } else {
            0
        }
    }
}

/// The level reached by walking `thresholds` in order from position `i`, starting
/// from `current`: each threshold met raises the level to its own, the first one
/// missed stops the walk.
pub open spec fn classify_from(
    score: u32,
    thresholds: Seq<(TrustLevel, u32)>,
    i: int,
    current: TrustLevel,
) -> TrustLevel
    decreases thresholds.len() - i,
{
    if i < 0 || i >= thresholds.len() || thresholds[i].1 > score {
        current
    } else {
        classify_from(score, thresholds, i + 1, thresholds[i].0)
    }
}

/// The highest level of the ascending `thresholds` whose minimum is met by `score`,
/// or `NoTrust` when none is.
pub open spec fn classify(score: u32, thresholds: Seq<(TrustLevel, u32)>) -> TrustLevel {
    classify_from(score, thresholds, 0, TrustLevel::NoTrust)
}

/// An immutable trust assessment.
#[derive(Debug)]
pub struct TrustScore {
    /// Weighted aggregate, in thousandths (at most `SCORE_SCALE`).
    pub score: u32,
    pub level: TrustLevel,
    pub metrics: TrustMetrics,
    /// When the score was computed (nanoseconds since the Unix epoch).
    pub timestamp: i64,
    /// Confidence, in thousandths (at most `SCORE_SCALE`).
    pub confidence: u32,
    /// How long the score stays valid, in nanoseconds.
    pub validity_period: i64,
}

impl TrustScore {
    /// Builds a score stamped with the current time. Fails with `InvalidTrustScore`
    /// exactly when `score` or `confidence` lies outside `[0, SCORE_SCALE]`; the level
    /// is taken as given.
    pub fn new(
        score: u32,
        level: TrustLevel,
        metrics: TrustMetrics,
        confidence: u32,
        validity_period: i64,
    ) -> (r: Result<TrustScore, TrustError>)
        ensures
            r is Ok <==> (score <= SCORE_SCALE && confidence <= SCORE_SCALE),
            r is Err ==> r->Err_0 is InvalidTrustScore,
            r matches Ok(s) ==> s.score == score && s.level == level && s.metrics == metrics
                && s.confidence == confidence && s.validity_period == validity_period,
    {
        if score > SCORE_SCALE {
            return Err(TrustError::InvalidTrustScore("score must lie between 0 and 1".to_owned()));
        }
        if confidence > SCORE_SCALE {
            return Err(
                TrustError::InvalidTrustScore("confidence must lie between 0 and 1".to_owned()),
            );
        }
        Ok(TrustScore {
            score,
            level,
            metrics,
            timestamp: clock::now(),
            confidence,
            validity_period,
        })
    }

    /// The score is still valid at time `now`: `now - timestamp < validity_period`.
    pub fn is_valid_at(&self, now: i64) -> (r: bool)
        ensures
            r == (now - self.timestamp < self.validity_period),
    {
        clock::elapsed(self.timestamp, now) < self.validity_period as i128
    }

    /// The score is still valid now.
    pub fn is_valid(&self) -> bool {
        self.is_valid_at(clock::now())
    }

    /// The weighted aggregate of `metrics` (see `TrustMetrics::weighted`).
    pub fn calculate_weighted_score(metrics: &TrustMetrics, weights: &Vec<(String, u32)>) -> (r: u32)
        ensures
            r == weighted_score(*metrics, weights@),
    {
        metrics.weighted(weights)
    }

    /// Walks the ascending `thresholds` and returns the highest level whose minimum
    /// `score` meets, or `NoTrust`; the walk stops at the first threshold missed.
    pub fn determine_trust_level(score: u32, thresholds: &Vec<(TrustLevel, u32)>) -> (r: TrustLevel)
        ensures
            r == classify(score, thresholds@),
    {
        let mut level = TrustLevel::NoTrust;
        let mut i: usize = 0;
        while i < thresholds.len()
            invariant
                i <= thresholds@.len(),
                classify_from(score, thresholds@, i as int, level) == classify(score, thresholds@),
            decreases thresholds.len() - i,
        {
            if thresholds[i].1 > score {
                return level;
            }
            level = thresholds[i].0;
            i = i + 1;
        }
        level
    }
}

/// Settings of the trust engine.
#[derive(Debug)]
pub struct TrustConfig {
    /// Minimum score for basic operations, in thousandths.
    pub minimum_trust_score: u32,
    /// Ascending `(level, minimum score)` pairs for `determine_trust_level`.
    pub trust_level_thresholds: Vec<(TrustLevel, u32)>,
    pub max_delegation_depth: u32,
    /// Metric weights for `calculate_weighted_score`.
    pub attribute_weights: Vec<(String, u32)>,
    /// Named verification policies.
    pub verification_policies: Vec<(String, crate::verification::VerificationPolicy)>,
}

impl Default for TrustConfig {
    /// Minimum 0.5; thresholds Low 0.3, Medium 0.6, High 0.8, VeryHigh 0.9; depth 3.
    fn default() -> (r: TrustConfig)
        ensures
            r.minimum_trust_score == 500,
            r.trust_level_thresholds@ == seq![
                (TrustLevel::Low, 300u32),
                (TrustLevel::Medium, 600u32),
                (TrustLevel::High, 800u32),
                (TrustLevel::VeryHigh, 900u32),
            ],
            r.max_delegation_depth == 3,
            r.attribute_weights@.len() == 0,
            r.verification_policies@.len() == 0,
    {
        let mut thresholds: Vec<(TrustLevel, u32)> = Vec::new();
        thresholds.push((TrustLevel::Low, 300));
        thresholds.push((TrustLevel::Medium, 600));
        thresholds.push((TrustLevel::High, 800));
        thresholds.push((TrustLevel::VeryHigh, 900));
        assert(thresholds@ =~= seq![
            (TrustLevel::Low, 300u32),
            (TrustLevel::Medium, 600u32),
            (TrustLevel::High, 800u32),
            (TrustLevel::VeryHigh, 900u32),
        ]);
        TrustConfig {
            minimum_trust_score: 500,
            trust_level_thresholds: thresholds,
            max_delegation_depth: 3,
            attribute_weights: Vec::new(),
            verification_policies: Vec::new(),
        }
    }
}

} // verus!
