use vstd::prelude::*;
use crate::metrics::{
    SCALE,
    README_SATURATION_LINES,
    bus_factor_spec,
    frac,
    frac_le,
    frac_lt,
    lemma_ppm_at_most_scale,
    ppm,
    ramp_up_spec,
    responsiveness_point_spec,
};
use crate::aggregate::{
    MetricScores,
    RepositoryFacts,
    license_view,
    net_score_spec,
    scores_of,
    weighted_sum,
};

verus! {

proof fn lemma_ppm_monotone(a: int, b: int, den: int)
    requires
        0 <= a <= b,
        0 < den,
    ensures
        ppm(a, den) <= ppm(b, den),
{
    assert(a * 1_000_000 / den <= b * 1_000_000 / den) by (nonlinear_arith)
        requires
            0 <= a <= b,
            0 < den,
    {
        vstd::arithmetic::div_mod::lemma_div_is_ordered(a * 1_000_000, b * 1_000_000, den);
    }
}

/// The bus factor `(c - 1) / (c + 1)` lies in `[0, 1)` once clamped, never
/// decreases as contributors are added, and grows strictly with the
/// contributor count from one contributor on.
pub proof fn lemma_bus_factor_monotone(c1: u32, c2: u32)
    requires
        c1 <= c2,
    ensures
        bus_factor_spec(c1).wf(),
        bus_factor_spec(c1).num < bus_factor_spec(c1).den,
        frac_le(bus_factor_spec(c1), bus_factor_spec(c2)),
        1 <= c1 < c2 ==> frac_lt(bus_factor_spec(c1), bus_factor_spec(c2)),
{
    let a = bus_factor_spec(c1);
    let b = bus_factor_spec(c2);
    if c1 >= 1 {
        assert(a.num == c1 - 1 && a.den == c1 + 1);
        assert(b.num == c2 - 1 && b.den == c2 + 1);
        assert((c1 - 1) * (c2 + 1) <= (c2 - 1) * (c1 + 1)) by (nonlinear_arith)
            requires
                1 <= c1 <= c2,
        ;
        if c1 < c2 {
            assert((c1 - 1) * (c2 + 1) < (c2 - 1) * (c1 + 1)) by (nonlinear_arith)
                requires
                    1 <= c1 < c2,
            ;
        }
    } else {
        assert(a.num == 0);
        assert(0 <= b.num * a.den) by (nonlinear_arith);
    }
}

/// The point `n / 13 - 2` at which the responsiveness score is read grows
/// strictly with the recent pull request count, in millionths it never
/// decreases, and with no recent pull request it is `-2`.
pub proof fn lemma_responsiveness_point_monotone(n1: u32, n2: u32)
    requires
        n1 <= n2,
    ensures
        responsiveness_point_spec(n1) <= responsiveness_point_spec(n2),
        responsiveness_point_spec(0) == -2 * (SCALE as int),
{
    lemma_ppm_monotone(n1 as int, n2 as int, 13);
}

/// Ramp-up scores 0 without a readme or with an empty one, 1 at 147 lines,
/// and never decreases as the readme grows.
pub proof fn lemma_ramp_up_monotone(n1: u32, n2: u32)
    requires
        n1 <= n2,
    ensures
        ramp_up_spec(None).num == 0,
        ramp_up_spec(Some(0)).num == 0,
        ramp_up_spec(Some(README_SATURATION_LINES)) == frac(1, 1),
        frac_le(ramp_up_spec(Some(n1)), ramp_up_spec(Some(n2))),
        ramp_up_spec(Some(n2)).wf(),
{
    let a = ramp_up_spec(Some(n1));
    let b = ramp_up_spec(Some(n2));
    if n2 < README_SATURATION_LINES {
        assert(a.num == n1 && a.den == 147 && b.num == n2 && b.den == 147);
        assert(n1 * 147 <= n2 * 147) by (nonlinear_arith)
            requires
                n1 <= n2,
        ;
    } else if n1 < README_SATURATION_LINES {
        assert(a.num == n1 && a.den == 147 && b.num == 1 && b.den == 1);
        assert(a.num * b.den <= b.num * a.den);
    } else {
        assert(a == b);
    }
}

/// With every score in `[0, 1]`, the net score lies in `[0, 1]`: the weights
/// sum to one.
pub proof fn lemma_net_score_bounded(s: MetricScores)
    requires
        s.wf(),
    ensures
        0 <= net_score_spec(s) <= SCALE,
{
    lemma_ppm_at_most_scale(s.ramp_up);
    lemma_ppm_at_most_scale(s.correctness);
    lemma_ppm_at_most_scale(s.bus_factor);
    lemma_ppm_at_most_scale(s.responsiveness);
    lemma_ppm_at_most_scale(s.compatibility);
    lemma_ppm_at_most_scale(s.reviewed_code);
    lemma_ppm_at_most_scale(s.pinning_practice);
    assert(weighted_sum(s) <= 120 * 1_000_000);
}

/// Scoring the same repository facts twice gives the same scores and the
/// same net score.
pub proof fn lemma_scoring_deterministic(a: &RepositoryFacts, b: &RepositoryFacts)
    requires
        a.readme_lines == b.readme_lines,
        a.issue_counts == b.issue_counts,
        a.contributors == b.contributors,
        a.responsiveness == b.responsiveness,
        license_view(a.license) == license_view(b.license),
        a.review_sample.is_some() == b.review_sample.is_some(),
        a.review_sample matches Some(x) ==> b.review_sample matches Some(y) && x.sampled
            == y.sampled && x.reviews@ == y.reviews@,
        a.dev_dependencies == b.dev_dependencies,
    ensures
        scores_of(a) == scores_of(b),
        net_score_spec(scores_of(a)) == net_score_spec(scores_of(b)),
{
}

} // verus!
