use vstd::prelude::*;
use crate::aggregate::{
    MetricScores,
    RepositoryFacts,
    compute_scores,
    net_score,
    net_score_spec,
    scores_of,
};

verus! {

/// A package with its seven scores and its net score.
#[derive(Debug)]
pub struct ScoredPackage {
    pub url: String,
    pub scores: MetricScores,
    pub net_score: u32,
}

/// Scores the package at `url` from the facts learned of its repository.
pub fn score_package(url: String, facts: &RepositoryFacts) -> (r: ScoredPackage)
    ensures
        r.url@ == url@,
        r.scores == scores_of(facts),
        r.scores.wf(),
        r.net_score == net_score_spec(r.scores),
{
    let scores = compute_scores(facts);
    let net = net_score(&scores);
    ScoredPackage { url, scores, net_score: net }
}

/// Whether the package at index `i` comes before the one at index `j`: a
/// higher net score first, and on equal scores the earlier one first.
pub open spec fn ranks_before(nets: Seq<u32>, i: int, j: int) -> bool {
    nets[i] > nets[j] || (nets[i] == nets[j] && i < j)
}

/// `order` lists each index of `nets` once, best ranked first.
pub open spec fn is_ranking(nets: Seq<u32>, order: Seq<usize>) -> bool {
    &&& order.len() == nets.len()
    &&& forall|k: int| 0 <= k < order.len() ==> order[k] < nets.len()
    &&& forall|k: int, l: int|
        0 <= k < l < order.len() ==> ranks_before(nets, order[k] as int, order[l] as int)
}

/// The ranking order of a batch with the given net scores: indices by
/// non-increasing net score, equal scores in batch order.
pub fn rank_order(nets: &Vec<u32>) -> (r: Vec<usize>)
    ensures
        is_ranking(nets@, r@),
{
    let mut order: Vec<usize> = Vec::new();
    let mut i: usize = 0;
    while i < nets.len()
        invariant
            i <= nets@.len(),
            order@.len() == i,
            forall|k: int| 0 <= k < order@.len() ==> order@[k] < i,
            forall|k: int, l: int|
                0 <= k < l < order@.len() ==> ranks_before(
                    nets@,
                    order@[k] as int,
                    order@[l] as int,
                ),
        decreases nets@.len() - i,
    {
        // every earlier index with a net score at least as high stays ahead
        let mut pos: usize = order.len();
        while pos > 0 && nets[order[pos - 1]] < nets[i]
            invariant
                i < nets@.len(),
                pos <= order@.len() == i,
                forall|k: int| 0 <= k < order@.len() ==> order@[k] < i,
                forall|k: int| pos <= k < order@.len() ==> nets@[order@[k] as int] < nets@[i as int],
            decreases pos,
        {
            pos = pos - 1;
        }
        proof {
            if pos > 0 {
                assert(nets@[order@[pos - 1] as int] >= nets@[i as int]);
            }
            assert forall|k: int| 0 <= k < pos implies ranks_before(nets@, order@[k] as int, i as int) by {
                if k < pos - 1 {
                    assert(ranks_before(nets@, order@[k] as int, order@[pos - 1] as int));
                }
            }
        }
        let ghost prev = order@;
        order.insert(pos, i);
        assert forall|k: int, l: int| 0 <= k < l < order@.len() implies ranks_before(
            nets@,
            order@[k] as int,
            order@[l] as int,
        ) by {
            if l < pos {
                assert(order@[k] == prev[k] && order@[l] == prev[l]);
            } else if l == pos {
                assert(order@[k] == prev[k]);
            } else if k < pos {
                assert(order@[k] == prev[k] && order@[l] == prev[l - 1]);
                assert(ranks_before(nets@, prev[k] as int, i as int));
            } else if k == pos {
                assert(order@[l] == prev[l - 1]);
            } else {
                assert(order@[k] == prev[k - 1] && order@[l] == prev[l - 1]);
            }
        }
        i = i + 1;
    }
    order
}

/// The net scores of a batch, in batch order.
pub open spec fn nets_of(packages: Seq<ScoredPackage>) -> Seq<u32> {
    packages.map_values(|p: ScoredPackage| p.net_score)
}

/// Ranks a batch of scored packages: by non-increasing net score, packages
/// with equal net scores in their batch order.
pub fn rank(packages: Vec<ScoredPackage>) -> (r: Vec<ScoredPackage>)
    ensures
        r@.len() == packages@.len(),
        forall|k: int, l: int|
            0 <= k < l < r@.len() ==> r@[k].net_score >= r@[l].net_score,
        exists|order: Seq<usize>|
            #![auto]
            is_ranking(nets_of(packages@), order) && forall|k: int|
                0 <= k < r@.len() ==> r@[k] == packages@[order[k] as int],
{
    let ghost orig = packages@;
    let n = packages.len();
    let mut nets: Vec<u32> = Vec::new();
    let mut i: usize = 0;
    while i < n
        invariant
            n == packages@.len() == orig.len(),
            packages@ == orig,
            i <= n,
            nets@ == nets_of(orig).subrange(0, i as int),
        decreases n - i,
    {
        nets.push(packages[i].net_score);
        assert(nets_of(orig).subrange(0, i + 1) == nets_of(orig).subrange(0, i as int).push(
            orig[i as int].net_score,
        ));
        i = i + 1;
    }
    assert(nets@ == nets_of(orig));
    let order = rank_order(&nets);
    let mut slots: Vec<Option<ScoredPackage>> = Vec::new();
    let mut rest = packages;
    let mut j: usize = 0;
    while j < n
        invariant
            n == orig.len(),
            j <= n,
            slots@.len() == j,
            rest@ == orig.subrange(j as int, n as int),
            forall|k: int| 0 <= k < j ==> slots@[k] == Some(orig[k]),
        decreases n - j,
    {
        let p = rest.remove(0);
        slots.push(Some(p));
        assert(rest@ == orig.subrange(j + 1, n as int));
        j = j + 1;
    }
    let mut out: Vec<ScoredPackage> = Vec::new();
    let mut k: usize = 0;
    while k < n
        invariant
            n == orig.len() == slots@.len() == order@.len(),
            is_ranking(nets@, order@),
            nets@ == nets_of(orig),
            k <= n,
            out@.len() == k,
            forall|m: int| 0 <= m < k ==> out@[m] == orig[order@[m] as int],
            forall|m: int| 0 <= m < k ==> out@[m].net_score == nets@[order@[m] as int],
            forall|m: int| k <= m < n ==> slots@[order@[m] as int] == Some(orig[order@[m] as int]),
        decreases n - k,
    {
        let at = order[k];
        let taken = slots.remove(at);
        slots.insert(at, None);
        assert forall|m: int| k < m < n implies order@[m] != at by {
            assert(ranks_before(nets@, order@[k as int] as int, order@[m] as int));
        }
        match taken {
            Some(p) => {
                out.push(p);
            },
            None => {},
        }
        k = k + 1;
    }
    assert forall|a: int, b: int| 0 <= a < b < out@.len() implies out@[a].net_score
        >= out@[b].net_score by {
        assert(ranks_before(nets@, order@[a] as int, order@[b] as int));
    }
    out
}

/// The net score that the facts of a repository give.
pub open spec fn net_of_facts(f: &RepositoryFacts) -> u32 {
    net_score_spec(scores_of(f)) as u32
}

/// The net scores that the entries of a batch get, in batch order.
pub open spec fn batch_nets(batch: Seq<(String, RepositoryFacts)>) -> Seq<u32> {
    batch.map_values(|e: (String, RepositoryFacts)| net_of_facts(&e.1))
}

/// Scores every package of a batch, given its URL and the facts of its
/// repository, and ranks them.
pub fn score_batch(batch: Vec<(String, RepositoryFacts)>) -> (r: Vec<ScoredPackage>)
    ensures
        r@.len() == batch@.len(),
        forall|k: int, l: int|
            0 <= k < l < r@.len() ==> r@[k].net_score >= r@[l].net_score,
        exists|order: Seq<usize>|
            #![auto]
            is_ranking(batch_nets(batch@), order) && forall|k: int|
                0 <= k < r@.len() ==> r@[k].url@ == batch@[order[k] as int].0@ && r@[k].scores
                    == scores_of(&batch@[order[k] as int].1) && r@[k].net_score
                    == net_of_facts(&batch@[order[k] as int].1),
{
    let ghost orig = batch@;
    let n = batch.len();
    let mut rest = batch;
    let mut scored: Vec<ScoredPackage> = Vec::new();
    let mut i: usize = 0;
    while i < n
        invariant
            n == orig.len(),
            i <= n,
            rest@ == orig.subrange(i as int, n as int),
            scored@.len() == i,
            forall|k: int|
                0 <= k < i ==> scored@[k].url@ == orig[k].0@ && scored@[k].scores == scores_of(
                    &orig[k].1,
                ) && scored@[k].net_score == net_of_facts(&orig[k].1),
        decreases n - i,
    {
        let (url, facts) = rest.remove(0);
        let p = score_package(url, &facts);
        scored.push(p);
        assert(rest@ == orig.subrange(i + 1, n as int));
        i = i + 1;
    }
    let ghost packages = scored@;
    assert(nets_of(packages) == batch_nets(orig));
    let ranked = rank(scored);
    let ghost order = choose|order: Seq<usize>|
        #![auto]
        is_ranking(nets_of(packages), order) && forall|k: int|
            0 <= k < ranked@.len() ==> ranked@[k] == packages[order[k] as int];
    assert(forall|k: int|
        0 <= k < ranked@.len() ==> ranked@[k] == packages[order[k] as int]);
    ranked
}

} // verus!
