use vstd::prelude::*;
use crate::text::same_text;

verus! {

/// One whole unit of score in millionths, the unit in which scores are
/// combined.
pub const SCALE: u32 = 1_000_000;

/// Readme length, in lines, at which the ramp-up score saturates.
pub const README_SATURATION_LINES: u32 = 147;

/// A score in `[0, 1]`, held exactly as `num / den`.
#[derive(Clone, Copy, Debug, PartialEq, Eq, Structural)]
pub struct Fraction {
    pub num: u64,
    pub den: u64,
}

/// The fraction `num / den` in millionths, rounded down.
pub open spec fn ppm(num: int, den: int) -> int {
    num * (SCALE as int) / den
}

pub open spec fn frac(num: int, den: int) -> Fraction {
    Fraction { num: num as u64, den: den as u64 }
}

/// `a < b` as numbers.
pub open spec fn frac_lt(a: Fraction, b: Fraction) -> bool {
    a.num * b.den < b.num * a.den
}

/// `a <= b` as numbers.
pub open spec fn frac_le(a: Fraction, b: Fraction) -> bool {
    a.num * b.den <= b.num * a.den
}

/// A score in millionths is at most one whole unit.
pub proof fn lemma_ppm_at_most_scale(f: Fraction)
    requires
        f.wf(),
    ensures
        0 <= f.ppm_spec() <= SCALE,
{
    let n = f.num as int;
    let d = f.den as int;
    assert(0 <= n * 1_000_000 / d <= 1_000_000) by (nonlinear_arith)
        requires
            0 <= n <= d,
            0 < d,
    {
        assert(n * 1_000_000 <= d * 1_000_000);
        vstd::arithmetic::div_mod::lemma_div_is_ordered(n * 1_000_000, d * 1_000_000, d);
        vstd::arithmetic::div_mod::lemma_div_multiples_vanish(1_000_000, d);
        vstd::arithmetic::div_mod::lemma_div_pos_is_pos(n * 1_000_000, d);
    }
}

impl Fraction {
    /// A score: a positive denominator, and a value no larger than 1.
    pub open spec fn wf(self) -> bool {
        0 < self.den && self.num <= self.den && self.den <= u32::MAX as u64 + 1
    }

    /// The score in millionths, rounded down.
    pub open spec fn ppm_spec(self) -> int {
        ppm(self.num as int, self.den as int)
    }

    /// Converts the score to millionths, rounded down.
    pub fn to_ppm(&self) -> (r: u32)
        requires
            self.wf(),
        ensures
            r == self.ppm_spec(),
            r <= SCALE,
    {
        proof {
            lemma_ppm_at_most_scale(*self);
        }
        assert(self.num * 1_000_000 <= u32::MAX * 1_000_000 + 1_000_000) by (nonlinear_arith)
            requires
                self.num <= u32::MAX as u64 + 1,
        ;
        let prod: u64 = self.num * SCALE as u64;
        (prod / self.den) as u32
    }
}

/// Ramp-up: `min(1, lines / 147)`, and 0 without a readme.
pub open spec fn ramp_up_spec(lines: Option<u32>) -> Fraction {
    match lines {
        None => frac(0, 1),
        Some(n) => if n >= README_SATURATION_LINES {
            frac(1, 1)
        } else {
            frac(n as int, README_SATURATION_LINES as int)
        },
    }
}

/// Correctness: the fraction of issues that are closed, 0 when there are none.
pub open spec fn correctness_spec(total: u32, closed: u32) -> Fraction {
    if total == 0 {
        frac(0, 1)
    } else if closed >= total {
        frac(1, 1)
    } else {
        frac(closed as int, total as int)
    }
}

/// Bus factor: `2c / (c + 1) - 1 = (c - 1) / (c + 1)`, clamped at 0.
pub open spec fn bus_factor_spec(contributors: u32) -> Fraction {
    if contributors == 0 {
        frac(0, 1)
    } else {
        frac(contributors - 1, contributors + 1)
    }
}

/// The point `n / 13 - 2` at which the standard normal distribution function
/// gives the responsiveness score, in millionths.
pub open spec fn responsiveness_point_spec(recent_pulls: u32) -> int {
    ppm(recent_pulls as int, 13) - 2 * (SCALE as int)
}

/// Review coverage: the fraction of sampled pull requests with a review.
pub open spec fn reviewed_code_spec(sampled: nat, reviewed: nat) -> Option<Fraction> {
    if sampled == 0 {
        None
    } else if reviewed >= sampled {
        Some(frac(1, 1))
    } else {
        Some(frac(reviewed as int, sampled as int))
    }
}

/// Pinning practice: 1 with no development dependency, `1 / d` with `d` of
/// them, and 0 where no manifest could be read.
pub open spec fn pinning_practice_spec(dev_dependencies: Option<u32>) -> Fraction {
    match dev_dependencies {
        None => frac(0, 1),
        Some(d) => if d == 0 {
            frac(1, 1)
        } else {
            frac(1, d as int)
        },
    }
}

/// Ramp-up score from the readme's line count, `None` where there is no readme.
pub fn calc_ramp_up_time(readme_lines: Option<u32>) -> (r: Fraction)
    ensures
        r == ramp_up_spec(readme_lines),
        r.wf(),
{
    match readme_lines {
        None => Fraction { num: 0, den: 1 },
        Some(n) => if n >= README_SATURATION_LINES {
            Fraction { num: 1, den: 1 }
        } else {
            Fraction { num: n as u64, den: README_SATURATION_LINES as u64 }
        },
    }
}

/// Correctness score from the issue count and the closed issue count.
pub fn calc_correctness(total: u32, closed: u32) -> (r: Fraction)
    ensures
        r == correctness_spec(total, closed),
        r.wf(),
{
    if total == 0 {
        Fraction { num: 0, den: 1 }
    } else if closed >= total {
        Fraction { num: 1, den: 1 }
    } else {
        Fraction { num: closed as u64, den: total as u64 }
    }
}

/// Bus-factor score from the contributor count.
pub fn calc_bus_factor(contributors: u32) -> (r: Fraction)
    ensures
        r == bus_factor_spec(contributors),
        r.wf(),
        r.num < r.den,
{
    if contributors == 0 {
        Fraction { num: 0, den: 1 }
    } else {
        Fraction { num: contributors as u64 - 1, den: contributors as u64 + 1 }
    }
}

/// Where the standard normal distribution function is to be read for the
/// responsiveness score, given the pull requests updated in the last year,
/// in millionths.
pub fn responsiveness_point(recent_pulls: u32) -> (r: i64)
    ensures
        r == responsiveness_point_spec(recent_pulls),
{
    assert(recent_pulls * 1_000_000 <= u32::MAX * 1_000_000) by (nonlinear_arith);
    let prod: u64 = recent_pulls as u64 * SCALE as u64;
    ((prod / 13) as i64) - 2 * (SCALE as i64)
}

/// Review-coverage score, `None` where the sample holds no pull request.
pub fn calc_reviewed_code(sampled: u32, reviewed: u32) -> (r: Option<Fraction>)
    ensures
        r is None <==> sampled == 0,
        r matches Some(v) ==> v.wf() && reviewed_code_spec(sampled as nat, reviewed as nat)
            == Some(v),
{
    if sampled == 0 {
        None
    } else if reviewed >= sampled {
        Some(Fraction { num: 1, den: 1 })
    } else {
        Some(Fraction { num: reviewed as u64, den: sampled as u64 })
    }
}

/// Pinning-practice score from the development dependency count of the
/// manifest, `None` where no manifest could be read.
pub fn calc_pinning_practice(dev_dependencies: Option<u32>) -> (r: Fraction)
    ensures
        r == pinning_practice_spec(dev_dependencies),
        r.wf(),
        dev_dependencies is Some ==> r.num > 0,
{
    match dev_dependencies {
        None => Fraction { num: 0, den: 1 },
        Some(d) => if d == 0 {
            Fraction { num: 1, den: 1 }
        } else {
            Fraction { num: 1, den: d as u64 }
        },
    }
}

/// The licenses, by their SPDX identifier, that are taken as compatible.
pub open spec fn compatible_license(id: Seq<char>) -> bool {
    id == "MIT"@ || id == "BSD-2-Clause"@ || id == "BSD-3-Clause"@ || id == "LGPL-2.1"@
        || id == "LGPL-3.0"@
}

pub open spec fn compatibility_spec(license: Option<Seq<char>>) -> Fraction {
    match license {
        Some(id) => if compatible_license(id) {
            frac(1, 1)
        } else {
            frac(0, 1)
        },
        None => frac(0, 1),
    }
}

/// License-compatibility score: 1 for a license of the allow-list, else 0.
pub fn calc_compatibility(license: Option<&str>) -> (r: Fraction)
    ensures
        r == compatibility_spec(
            match license {
                Some(l) => Some(l@),
                None => None,
            },
        ),
        r.den == 1 && (r.num == 0 || r.num == 1),
{
    match license {
        None => Fraction { num: 0, den: 1 },
        Some(l) => if same_text(l, "MIT") || same_text(l, "BSD-2-Clause") || same_text(
            l,
            "BSD-3-Clause",
        ) || same_text(l, "LGPL-2.1") || same_text(l, "LGPL-3.0") {
            Fraction { num: 1, den: 1 }
        } else {
            Fraction { num: 0, den: 1 }
        },
    }
}

/// Whether a pull request counts as reviewed, from its review count.
pub open spec fn is_reviewed(reviews: Option<i64>) -> bool {
    match reviews {
        Some(n) => n > 0,
        None => false,
    }
}

/// How many of the first `k` review counts mark a reviewed pull request.
pub open spec fn reviewed_count(reviews: Seq<Option<i64>>, k: int) -> nat
    decreases k,
{
    if k <= 0 {
        0
    } else {
        reviewed_count(reviews, k - 1) + if is_reviewed(reviews[k - 1]) {
            1nat
        } else {
            0nat
        }
    }
}

proof fn lemma_reviewed_count_bound(reviews: Seq<Option<i64>>, k: int)
    requires
        0 <= k,
    ensures
        reviewed_count(reviews, k) <= k,
    decreases k,
{
    if k > 0 {
        lemma_reviewed_count_bound(reviews, k - 1);
    }
}

/// Counts the pull requests with at least one review, given the review count
/// reported for each (`None` where none was reported).
pub fn count_reviewed(reviews: &Vec<Option<i64>>) -> (r: usize)
    ensures
        r == reviewed_count(reviews@, reviews@.len() as int),
{
    let mut count: usize = 0;
    let mut i: usize = 0;
    while i < reviews.len()
        invariant
            i <= reviews@.len(),
            count == reviewed_count(reviews@, i as int),
        decreases reviews@.len() - i,
    {
        proof {
            lemma_reviewed_count_bound(reviews@, i + 1);
        }
        let reviewed = match reviews[i] {
            Some(n) => n > 0,
            None => false,
        };
        if reviewed {
            count = count + 1;
        }
        i = i + 1;
    }
    count
}

/// The true issue count: an issue tracker's count includes the pull
/// requests. `None` where the two counts contradict each other.
pub fn corrected_issue_count(raw_issues: u32, pulls: u32) -> (r: Option<u32>)
    ensures
        r is None <==> pulls > raw_issues,
        r matches Some(n) ==> n == raw_issues - pulls,
{
    if pulls > raw_issues {
        None
    } else {
        Some(raw_issues - pulls)
    }
}


/// Finds, in the names of a repository's top-level entries, the last one
/// that is the package manifest `package.json`.
pub fn find_manifest(names: &Vec<String>) -> (r: Option<usize>)
    ensures
        match r {
            Some(i) => i < names@.len() && names@[i as int]@ == "package.json"@ && forall|j: int|
                i < j < names@.len() ==> names@[j]@ != "package.json"@,
            None => forall|j: int| 0 <= j < names@.len() ==> names@[j]@ != "package.json"@,
        },
{
    let mut i: usize = names.len();
    while i > 0
        invariant
            i <= names@.len(),
            forall|j: int| i <= j < names@.len() ==> names@[j]@ != "package.json"@,
        decreases i,
    {
        if same_text(names[i - 1].as_str(), "package.json") {
            return Some(i - 1);
        }
        i = i - 1;
    }
    None
}

/// The development dependency count of a manifest, given what its
/// `devDependencies` entry holds: `None` where there is no such entry,
/// `Some(None)` where it is no object, else the object's entry count.
pub open spec fn dev_dependency_count_spec(entry: Option<Option<usize>>) -> Option<u32> {
    match entry {
        None => Some(0),
        Some(None) => None,
        Some(Some(n)) => Some(
            if n > u32::MAX {
                u32::MAX
            } else {
                n as u32
            },
        ),
    }
}

/// Counts a manifest's development dependencies; `None` where its
/// `devDependencies` entry is malformed. Counts beyond `u32::MAX` saturate.
pub fn dev_dependency_count(entry: Option<Option<usize>>) -> (r: Option<u32>)
    ensures
        r == dev_dependency_count_spec(entry),
{
    match entry {
        None => Some(0),
        Some(None) => None,
        Some(Some(n)) => Some(
            if n > u32::MAX as usize {
                u32::MAX
            } else {
                n as u32
            },
        ),
    }
}

} // verus!
