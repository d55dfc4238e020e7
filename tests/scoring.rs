use statrs::distribution::{ContinuousCDF, Normal};
use trust_score::aggregate::{
    compute_scores, net_score, to_hundredths, IssueCounts, MetricScores, RepositoryFacts,
    ReviewSample,
};
use trust_score::metrics::{responsiveness_point, Fraction, SCALE};
use trust_score::ranking::{rank, rank_order, score_batch, score_package, ScoredPackage};

fn responsiveness_ppm(recent_pulls: u32) -> u32 {
    let normal = Normal::new(0.0, 1.0).unwrap();
    let p = normal.cdf(responsiveness_point(recent_pulls) as f64 / SCALE as f64);
    (p * SCALE as f64).round() as u32
}

fn fr(num: u64, den: u64) -> Fraction {
    Fraction { num, den }
}

fn ppm(v: u32) -> Fraction {
    fr(v as u64, SCALE as u64)
}

fn uniform(v: Fraction) -> MetricScores {
    MetricScores {
        ramp_up: v,
        correctness: v,
        bus_factor: v,
        responsiveness: v,
        compatibility: v,
        reviewed_code: v,
        pinning_practice: v,
    }
}

fn package(url: &str, net: u32) -> ScoredPackage {
    ScoredPackage { url: url.to_string(), scores: uniform(ppm(net)), net_score: net }
}

#[test]
fn bare_repository_scores_zero() {
    let facts = RepositoryFacts {
        readme_lines: None,
        issue_counts: Some(IssueCounts {
            issues_all: 0,
            pulls_all: 0,
            issues_closed: 0,
            pulls_closed: 0,
        }),
        contributors: Some(0),
        responsiveness: Some(responsiveness_ppm(0)),
        license: None,
        review_sample: Some(ReviewSample { sampled: 0, reviews: vec![] }),
        dev_dependencies: None,
    };
    let p = score_package("https://github.com/a/b".to_string(), &facts);
    assert_eq!(p.scores.ramp_up, fr(0, 1));
    assert_eq!(p.scores.bus_factor, fr(0, 1));
    assert_eq!(p.scores.compatibility, fr(0, 1));
    assert_eq!(p.scores.reviewed_code, fr(0, 1));
    assert_eq!(p.scores.pinning_practice, fr(0, 1));
    assert_eq!(p.scores.responsiveness, ppm(22_750));
    assert_eq!(p.net_score, 4_739);
    assert_eq!(to_hundredths(p.net_score), 0);
}

#[test]
fn healthy_repository_scores_near_one() {
    let facts = RepositoryFacts {
        readme_lines: Some(200),
        issue_counts: Some(IssueCounts {
            issues_all: 5,
            pulls_all: 4,
            issues_closed: 5,
            pulls_closed: 4,
        }),
        contributors: Some(100),
        responsiveness: Some(responsiveness_ppm(50)),
        license: Some("MIT".to_string()),
        review_sample: Some(ReviewSample { sampled: 3, reviews: vec![Some(1), Some(2), Some(1)] }),
        dev_dependencies: Some(1),
    };
    let p = score_package("https://github.com/a/b".to_string(), &facts);
    assert_eq!(p.url, "https://github.com/a/b");
    assert_eq!(p.scores.ramp_up, fr(1, 1));
    assert_eq!(p.scores.correctness, fr(1, 1));
    assert_eq!(p.scores.bus_factor, fr(99, 101));
    assert_eq!(p.scores.compatibility, fr(1, 1));
    assert_eq!(p.scores.reviewed_code, fr(1, 1));
    assert_eq!(p.scores.pinning_practice, fr(1, 1));
    assert!(p.net_score <= SCALE);
    assert_eq!(to_hundredths(p.net_score), 99);
}

#[test]
fn missing_facts_score_zero() {
    let facts = RepositoryFacts {
        readme_lines: Some(10),
        issue_counts: Some(IssueCounts {
            issues_all: 2,
            pulls_all: 3,
            issues_closed: 0,
            pulls_closed: 0,
        }),
        contributors: None,
        responsiveness: None,
        license: Some("GPL-3.0".to_string()),
        review_sample: None,
        dev_dependencies: None,
    };
    let s = compute_scores(&facts);
    assert_eq!(s.ramp_up, fr(10, 147));
    assert_eq!(s.ramp_up.to_ppm(), 68_027);
    assert_eq!(s.correctness, fr(0, 1));
    assert_eq!(s.bus_factor, fr(0, 1));
    assert_eq!(s.responsiveness, fr(0, 1));
    assert_eq!(s.compatibility, fr(0, 1));
    assert_eq!(s.reviewed_code, fr(0, 1));
    assert_eq!(s.pinning_practice, fr(0, 1));
}

#[test]
fn responsiveness_is_clamped() {
    let facts = RepositoryFacts {
        readme_lines: None,
        issue_counts: None,
        contributors: None,
        responsiveness: Some(SCALE + 7),
        license: None,
        review_sample: None,
        dev_dependencies: None,
    };
    assert_eq!(compute_scores(&facts).responsiveness, ppm(SCALE));
}

#[test]
fn net_score_weights() {
    assert_eq!(net_score(&uniform(fr(1, 1))), SCALE);
    assert_eq!(net_score(&uniform(fr(0, 1))), 0);
    let mut s = uniform(fr(0, 1));
    s.compatibility = fr(1, 1);
    assert_eq!(net_score(&s), 333_333);
    let mut s = uniform(fr(0, 1));
    s.ramp_up = fr(1, 1);
    assert_eq!(net_score(&s), 41_666);
    let mut s = uniform(fr(0, 1));
    s.responsiveness = ppm(600_000);
    assert_eq!(net_score(&s), 125_000);
    let mut s = uniform(fr(0, 1));
    s.pinning_practice = fr(1, 3);
    assert_eq!(net_score(&s), 27_777);
}

#[test]
fn net_score_stays_in_unit_range() {
    for a in [fr(0, 1), fr(1, 7), fr(499_999, SCALE as u64), fr(3, 3)] {
        for b in [fr(0, 9), fr(1, 4), fr(u32::MAX as u64, u32::MAX as u64)] {
            let s = MetricScores {
                ramp_up: a,
                correctness: b,
                bus_factor: a,
                responsiveness: b,
                compatibility: a,
                reviewed_code: b,
                pinning_practice: a,
            };
            assert!(net_score(&s) <= SCALE);
        }
    }
}

#[test]
fn rounds_to_hundredths() {
    assert_eq!(to_hundredths(0), 0);
    assert_eq!(to_hundredths(4_999), 0);
    assert_eq!(to_hundredths(5_000), 1);
    assert_eq!(to_hundredths(994_999), 99);
    assert_eq!(to_hundredths(995_000), 100);
    assert_eq!(to_hundredths(SCALE), 100);
}

#[test]
fn scoring_twice_gives_the_same_package() {
    let make = || RepositoryFacts {
        readme_lines: Some(77),
        issue_counts: Some(IssueCounts {
            issues_all: 30,
            pulls_all: 10,
            issues_closed: 25,
            pulls_closed: 10,
        }),
        contributors: Some(7),
        responsiveness: Some(responsiveness_ppm(12)),
        license: Some("BSD-3-Clause".to_string()),
        review_sample: Some(ReviewSample { sampled: 4, reviews: vec![Some(1), None, Some(0), Some(3)] }),
        dev_dependencies: Some(4),
    };
    let a = score_package("https://github.com/x/y".to_string(), &make());
    let b = score_package("https://github.com/x/y".to_string(), &make());
    assert_eq!(a.scores, b.scores);
    assert_eq!(a.net_score, b.net_score);
    assert_eq!(a.scores.correctness, fr(15, 20));
    assert_eq!(a.scores.reviewed_code, fr(2, 4));
    assert_eq!(a.scores.pinning_practice, fr(1, 4));
}

#[test]
fn rank_order_is_stable() {
    assert_eq!(rank_order(&vec![]), Vec::<usize>::new());
    assert_eq!(rank_order(&vec![5, 9, 5, 1, 9]), vec![1, 4, 0, 2, 3]);
    assert_eq!(rank_order(&vec![3, 3, 3]), vec![0, 1, 2]);
}

#[test]
fn rank_sorts_by_net_score() {
    let batch = vec![
        package("a", 200_000),
        package("b", 700_000),
        package("c", 200_000),
        package("d", 900_000),
        package("e", 700_000),
    ];
    let ranked = rank(batch);
    let urls: Vec<&str> = ranked.iter().map(|p| p.url.as_str()).collect();
    assert_eq!(urls, vec!["d", "b", "e", "a", "c"]);
    for w in ranked.windows(2) {
        assert!(w[0].net_score >= w[1].net_score);
    }
    assert!(rank(vec![]).is_empty());
}

fn facts_with(readme_lines: Option<u32>, license: Option<&str>) -> RepositoryFacts {
    RepositoryFacts {
        readme_lines,
        issue_counts: None,
        contributors: None,
        responsiveness: None,
        license: license.map(|l| l.to_string()),
        review_sample: None,
        dev_dependencies: None,
    }
}

#[test]
fn scores_and_ranks_a_batch() {
    let batch = vec![
        ("low".to_string(), facts_with(None, None)),
        ("mit".to_string(), facts_with(None, Some("MIT"))),
        ("readme".to_string(), facts_with(Some(147), None)),
        ("mit-readme".to_string(), facts_with(Some(147), Some("MIT"))),
        ("low-again".to_string(), facts_with(None, Some("Apache-2.0"))),
    ];
    let ranked = score_batch(batch);
    let urls: Vec<&str> = ranked.iter().map(|p| p.url.as_str()).collect();
    assert_eq!(urls, vec!["mit-readme", "mit", "readme", "low", "low-again"]);
    let nets: Vec<u32> = ranked.iter().map(|p| p.net_score).collect();
    assert_eq!(nets, vec![375_000, 333_333, 41_666, 0, 0]);
    assert!(score_batch(vec![]).is_empty());
}
