use vstd::prelude::*;
use crate::metrics::{
    Fraction,
    SCALE,
    frac,
    bus_factor_spec,
    calc_bus_factor,
    calc_compatibility,
    calc_correctness,
    calc_pinning_practice,
    calc_ramp_up_time,
    calc_reviewed_code,
    compatibility_spec,
    correctness_spec,
    count_reviewed,
    corrected_issue_count,
    pinning_practice_spec,
    ramp_up_spec,
    reviewed_code_spec,
    reviewed_count,
};

verus! {

/// Weights of the seven metrics, in parts of `WEIGHT_TOTAL`.
pub const RAMP_UP_WEIGHT: u64 = 5;
pub const CORRECTNESS_WEIGHT: u64 = 10;
pub const BUS_FACTOR_WEIGHT: u64 = 10;
pub const RESPONSIVENESS_WEIGHT: u64 = 25;
pub const COMPATIBILITY_WEIGHT: u64 = 40;
pub const REVIEWED_CODE_WEIGHT: u64 = 20;
pub const PINNING_PRACTICE_WEIGHT: u64 = 10;

/// The sum of the weights: the net score divides by it, so that the weights
/// taken as fractions sum to 1.
pub const WEIGHT_TOTAL: u64 = 120;

/// Issue and pull request counts as an issue tracker reports them: its issue
/// counts include the pull requests.
#[derive(Clone, Copy, Debug, PartialEq, Eq)]
pub struct IssueCounts {
    pub issues_all: u32,
    pub pulls_all: u32,
    pub issues_closed: u32,
    pub pulls_closed: u32,
}

/// A sample of the most recent pull requests: how many were sampled, and the
/// review count reported for each.
#[derive(Debug)]
pub struct ReviewSample {
    pub sampled: u32,
    pub reviews: Vec<Option<i64>>,
}

/// What a provider learned of one repository. `None` stands for a fact that
/// could not be had; the metric that needs it then scores 0.
#[derive(Debug)]
pub struct RepositoryFacts {
    /// Lines of the top-level readme; `None` where there is none.
    pub readme_lines: Option<u32>,
    pub issue_counts: Option<IssueCounts>,
    pub contributors: Option<u32>,
    /// The standard normal distribution function at `responsiveness_point`
    /// of the recent pull request count, in millionths.
    pub responsiveness: Option<u32>,
    /// SPDX identifier of the license.
    pub license: Option<String>,
    pub review_sample: Option<ReviewSample>,
    /// Development dependencies declared in the manifest; `None` where no
    /// manifest could be read.
    pub dev_dependencies: Option<u32>,
}

/// The seven metric scores of one package.
#[derive(Clone, Copy, Debug, PartialEq, Eq)]
pub struct MetricScores {
    pub ramp_up: Fraction,
    pub correctness: Fraction,
    pub bus_factor: Fraction,
    pub responsiveness: Fraction,
    pub compatibility: Fraction,
    pub reviewed_code: Fraction,
    pub pinning_practice: Fraction,
}

impl MetricScores {
    /// Every score lies in `[0, 1]`.
    pub open spec fn wf(self) -> bool {
        self.ramp_up.wf() && self.correctness.wf() && self.bus_factor.wf()
            && self.responsiveness.wf() && self.compatibility.wf() && self.reviewed_code.wf()
            && self.pinning_practice.wf()
    }
}

/// The weighted sum of the seven scores, each in millionths rounded down.
pub open spec fn weighted_sum(s: MetricScores) -> int {
    RAMP_UP_WEIGHT * s.ramp_up.ppm_spec() + CORRECTNESS_WEIGHT * s.correctness.ppm_spec()
        + BUS_FACTOR_WEIGHT * s.bus_factor.ppm_spec() + RESPONSIVENESS_WEIGHT
        * s.responsiveness.ppm_spec() + COMPATIBILITY_WEIGHT * s.compatibility.ppm_spec()
        + REVIEWED_CODE_WEIGHT * s.reviewed_code.ppm_spec() + PINNING_PRACTICE_WEIGHT
        * s.pinning_practice.ppm_spec()
}

/// The net score in millionths: the weighted mean of the seven scores,
/// rounded down.
pub open spec fn net_score_spec(s: MetricScores) -> int {
    weighted_sum(s) / (WEIGHT_TOTAL as int)
}

/// Combines the seven scores of a package into its net score, in millionths.
pub fn net_score(s: &MetricScores) -> (r: u32)
    requires
        s.wf(),
    ensures
        r == net_score_spec(*s),
        r <= SCALE,
{
    let sum: u64 = RAMP_UP_WEIGHT * s.ramp_up.to_ppm() as u64 + CORRECTNESS_WEIGHT
        * s.correctness.to_ppm() as u64 + BUS_FACTOR_WEIGHT * s.bus_factor.to_ppm() as u64
        + RESPONSIVENESS_WEIGHT * s.responsiveness.to_ppm() as u64 + COMPATIBILITY_WEIGHT
        * s.compatibility.to_ppm() as u64 + REVIEWED_CODE_WEIGHT * s.reviewed_code.to_ppm() as u64
        + PINNING_PRACTICE_WEIGHT * s.pinning_practice.to_ppm() as u64;
    assert(sum / 120 <= 1_000_000) by (nonlinear_arith)
        requires
            sum <= 120 * 1_000_000,
    ;
    (sum / WEIGHT_TOTAL) as u32
}

/// A score of millionths rounded to hundredths, half up.
pub open spec fn hundredths_spec(ppm: u32) -> int {
    (ppm + 5_000) / 10_000
}

/// Rounds a score to the two decimals in which it is reported.
pub fn to_hundredths(ppm: u32) -> (r: u32)
    ensures
        r == hundredths_spec(ppm),
{
    ((ppm as u64 + 5_000) / 10_000) as u32
}

/// Correctness from raw issue counts; contradicting counts score 0.
pub open spec fn issue_correctness_spec(counts: Option<IssueCounts>) -> Fraction {
    match counts {
        None => frac(0, 1),
        Some(c) => if c.pulls_all > c.issues_all || c.pulls_closed > c.issues_closed {
            frac(0, 1)
        } else {
            correctness_spec(
                (c.issues_all - c.pulls_all) as u32,
                (c.issues_closed - c.pulls_closed) as u32,
            )
        },
    }
}

pub open spec fn review_coverage_spec(sample: Option<&ReviewSample>) -> Fraction {
    match sample {
        None => frac(0, 1),
        Some(s) => match reviewed_code_spec(
            s.sampled as nat,
            reviewed_count(s.reviews@, s.reviews@.len() as int),
        ) {
            Some(v) => v,
            None => frac(0, 1),
        },
    }
}

pub open spec fn license_view(license: Option<String>) -> Option<Seq<char>> {
    match license {
        Some(l) => Some(l@),
        None => None,
    }
}

/// A value of the distribution function in millionths as a score: capped at
/// 1, and 0 where there is none.
pub open spec fn responsiveness_spec(v: Option<u32>) -> Fraction {
    match v {
        Some(x) => if x > SCALE {
            frac(SCALE as int, SCALE as int)
        } else {
            frac(x as int, SCALE as int)
        },
        None => frac(0, 1),
    }
}

/// The seven scores that the facts of a repository give.
pub open spec fn scores_of(f: &RepositoryFacts) -> MetricScores {
    MetricScores {
        ramp_up: ramp_up_spec(f.readme_lines),
        correctness: issue_correctness_spec(f.issue_counts),
        bus_factor: match f.contributors {
            Some(c) => bus_factor_spec(c),
            None => frac(0, 1),
        },
        responsiveness: responsiveness_spec(f.responsiveness),
        compatibility: compatibility_spec(license_view(f.license)),
        reviewed_code: review_coverage_spec(
            match f.review_sample {
                Some(s) => Some(&s),
                None => None,
            },
        ),
        pinning_practice: pinning_practice_spec(f.dev_dependencies),
    }
}

fn issue_correctness(counts: Option<IssueCounts>) -> (r: Fraction)
    ensures
        r == issue_correctness_spec(counts),
        r.wf(),
{
    match counts {
        None => Fraction { num: 0, den: 1 },
        Some(c) => {
            let total = corrected_issue_count(c.issues_all, c.pulls_all);
            let closed = corrected_issue_count(c.issues_closed, c.pulls_closed);
            match (total, closed) {
                (Some(t), Some(d)) => calc_correctness(t, d),
                _ => Fraction { num: 0, den: 1 },
            }
        },
    }
}

fn review_coverage(sample: Option<&ReviewSample>) -> (r: Fraction)
    ensures
        r == review_coverage_spec(sample),
        r.wf(),
{
    match sample {
        None => Fraction { num: 0, den: 1 },
        Some(s) => {
            let count = count_reviewed(&s.reviews);
            let reviewed: u32 = if count >= s.sampled as usize {
                s.sampled
            } else {
                count as u32
            };
            match calc_reviewed_code(s.sampled, reviewed) {
                Some(v) => v,
                None => Fraction { num: 0, den: 1 },
            }
        },
    }
}

/// Computes the seven metric scores of a repository from its facts.
pub fn compute_scores(facts: &RepositoryFacts) -> (r: MetricScores)
    ensures
        r == scores_of(facts),
        r.wf(),
{
    let responsiveness = match facts.responsiveness {
        Some(x) => if x > SCALE {
            Fraction { num: SCALE as u64, den: SCALE as u64 }
        } else {
            Fraction { num: x as u64, den: SCALE as u64 }
        },
        None => Fraction { num: 0, den: 1 },
    };
    let compatibility = match &facts.license {
        Some(l) => calc_compatibility(Some(l.as_str())),
        None => calc_compatibility(None),
    };
    MetricScores {
        ramp_up: calc_ramp_up_time(facts.readme_lines),
        correctness: issue_correctness(facts.issue_counts),
        bus_factor: match facts.contributors {
            Some(c) => calc_bus_factor(c),
            None => Fraction { num: 0, den: 1 },
        },
        responsiveness,
        compatibility,
        reviewed_code: review_coverage(facts.review_sample.as_ref()),
        pinning_practice: calc_pinning_practice(facts.dev_dependencies),
    }
}

} // verus!
