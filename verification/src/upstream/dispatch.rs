//! The target-dispatch engine: which fetches a round runs, and how their
//! outcomes become the next round.
//!
//! The engine does no fetching itself. A caller asks it for the jobs of the
//! round, runs them concurrently, and hands the outcomes back.

use crate::error::Error;
use crate::upstream::target::{Target, TargetKey, Upstream};
use vstd::prelude::*;

verus! {

/// The depth that the query path dispatches to.
pub const DEFAULT_DEPTH: u32 = 3;

/// One fetch: a target and the adapter that is asked for it.
#[derive(Debug)]
pub struct Job {
    pub target: Target,
    pub upstream: Upstream,
}

/// How one fetch ended: the follow-up targets, or the adapter's error.
#[derive(Debug)]
pub struct Outcome {
    pub target: Target,
    pub upstream: Upstream,
    pub result: Result<Vec<Target>, Error>,
}

/// A fetch that failed.
#[derive(Debug)]
pub struct Failure {
    pub target: Target,
    pub upstream: Upstream,
    pub error: Error,
}

/// The state of one breadth-first dispatch.
#[derive(Debug)]
pub struct Dispatch {
    /// The canonical forms of all targets met so far.
    pub visited: Vec<Target>,
    /// The targets of the round to run.
    pub frontier: Vec<Target>,
    /// The number of rounds that have run.
    pub depth: u32,
    /// The number of rounds that may run.
    pub max_depth: u32,
    /// The fetches that failed so far.
    pub failures: Vec<Failure>,
}

/// The targets of a list as plain values.
pub open spec fn keys(list: Seq<Target>) -> Seq<TargetKey> {
    list.map_values(|t: Target| t@)
}

/// Taking candidates in, one after the other: a candidate whose canonical
/// form was met is dropped, another joins the frontier and its canonical
/// form joins what was met. The result is what was met, then the frontier.
pub open spec fn visit(seen: Seq<TargetKey>, candidates: Seq<TargetKey>) -> (
    Seq<TargetKey>,
    Seq<TargetKey>,
)
    decreases candidates.len(),
{
    if candidates.len() == 0 {
        (seen, Seq::<TargetKey>::empty())
    } else {
        let before = visit(seen, candidates.drop_last());
        let c = candidates.last();
        if before.0.contains(c.canonical()) {
            before
        } else {
            (before.0.push(c.canonical()), before.1.push(c))
        }
    }
}

/// The follow-up targets of the fetches that succeeded, in order.
pub open spec fn follow_ups(outcomes: Seq<Outcome>) -> Seq<TargetKey>
    decreases outcomes.len(),
{
    if outcomes.len() == 0 {
        Seq::<TargetKey>::empty()
    } else {
        (match outcomes[0].result {
            Ok(list) => keys(list@),
            Err(_) => Seq::<TargetKey>::empty(),
        }) + follow_ups(outcomes.drop_first())
    }
}

/// The fetches that failed, in order.
pub open spec fn failed(outcomes: Seq<Outcome>) -> Seq<Failure>
    decreases outcomes.len(),
{
    if outcomes.len() == 0 {
        Seq::<Failure>::empty()
    } else {
        (match outcomes[0].result {
            Ok(_) => Seq::<Failure>::empty(),
            Err(e) => seq![
                Failure { target: outcomes[0].target, upstream: outcomes[0].upstream, error: e },
            ],
        }) + failed(outcomes.drop_first())
    }
}

/// The adapters that take a target, in registry order, each paired with it.
pub open spec fn jobs_for(target: TargetKey) -> Seq<(TargetKey, Upstream)> {
    Upstream::spec_registry().filter(|u: Upstream| u.spec_can_fetch(target)).map_values(
        |u: Upstream| (target, u),
    )
}

/// The jobs of a frontier: target by target, adapter by adapter.
pub open spec fn jobs_of(frontier: Seq<TargetKey>) -> Seq<(TargetKey, Upstream)>
    decreases frontier.len(),
{
    if frontier.len() == 0 {
        Seq::<(TargetKey, Upstream)>::empty()
    } else {
        jobs_of(frontier.drop_last()) + jobs_for(frontier.last())
    }
}

/// The jobs of a list as plain values.
pub open spec fn job_keys(list: Seq<Job>) -> Seq<(TargetKey, Upstream)> {
    list.map_values(|j: Job| (j.target@, j.upstream))
}

/// Whether a list of targets holds one of the given value.
pub fn holds_target(list: &Vec<Target>, target: &Target) -> (r: bool)
    ensures
        r == keys(list@).contains(target@),
{
    let mut i: usize = 0;
    while i < list.len()
        invariant
            i <= list.len(),
            forall|j: int| 0 <= j < i ==> keys(list@)[j] != target@,
        decreases list.len() - i,
    {
        if list[i].same(target) {
            assert(keys(list@)[i as int] == target@);
            return true;
        }
        i += 1;
    }
    false
}

/// Every target of the frontier that `visit` returns is new: its canonical
/// form was not met before, is met afterwards, and is the canonical form of
/// no other target of the frontier. What was met before stays met, in place.
pub proof fn lemma_visit_is_new(seen: Seq<TargetKey>, candidates: Seq<TargetKey>)
    ensures
        visit(seen, candidates).0 == seen + visit(seen, candidates).1.map_values(
            |t: TargetKey| t.canonical(),
        ),
        forall|i: int|
            0 <= i < visit(seen, candidates).1.len() ==> !seen.contains(
                (#[trigger] visit(seen, candidates).1[i]).canonical(),
            ),
        forall|i: int, j: int|
            0 <= i < j < visit(seen, candidates).1.len() ==> (#[trigger] visit(
                seen,
                candidates,
            ).1[i]).canonical() != (#[trigger] visit(seen, candidates).1[j]).canonical(),
    decreases candidates.len(),
{
    let canon = |t: TargetKey| t.canonical();
    if candidates.len() == 0 {
        assert(visit(seen, candidates).0 =~= seen + visit(seen, candidates).1.map_values(canon));
    } else {
        lemma_visit_is_new(seen, candidates.drop_last());
        let before = visit(seen, candidates.drop_last());
        let c = candidates.last();
        let after = visit(seen, candidates);
        if !before.0.contains(c.canonical()) {
            assert(after.0 =~= seen + after.1.map_values(canon));
            assert forall|i: int| 0 <= i < after.1.len() implies !seen.contains(
                (#[trigger] after.1[i]).canonical(),
            ) by {
                if i < before.1.len() {
                    assert(after.1[i] == before.1[i]);
                } else {
                    if seen.contains(c.canonical()) {
                        let k = choose|k: int| 0 <= k < seen.len() && seen[k] == c.canonical();
                        assert(before.0[k] == c.canonical());
                    }
                }
            }
            assert forall|i: int, j: int| 0 <= i < j < after.1.len() implies (
            #[trigger] after.1[i]).canonical() != (#[trigger] after.1[j]).canonical() by {
                if j < before.1.len() {
                    assert(after.1[i] == before.1[i] && after.1[j] == before.1[j]);
                } else {
                    assert(after.1[i] == before.1[i]);
                    assert(before.0[seen.len() + i] == before.1.map_values(canon)[i]);
                }
            }
        }
    }
}

impl Dispatch {
    /// Whether the dispatch has come to its end: nothing is left to fetch, or
    /// all rounds have run.
    pub open spec fn spec_is_done(&self) -> bool {
        self.frontier@.len() == 0 || self.depth >= self.max_depth
    }

    /// Takes candidates into the frontier, as `visit` says.
    fn take_in(visited: &mut Vec<Target>, frontier: &mut Vec<Target>, candidates: &Vec<Target>)
        requires
            old(frontier)@.len() == 0,
        ensures
            keys(final(visited)@) == visit(keys(old(visited)@), keys(candidates@)).0,
            keys(final(frontier)@) == visit(keys(old(visited)@), keys(candidates@)).1,
    {
        let ghost seen = keys(visited@);
        let mut i: usize = 0;
        assert(keys(candidates@).take(0) =~= Seq::<TargetKey>::empty());
        assert(keys(frontier@) =~= Seq::<TargetKey>::empty());
        while i < candidates.len()
            invariant
                i <= candidates.len(),
                keys(visited@) == visit(seen, keys(candidates@).take(i as int)).0,
                keys(frontier@) == visit(seen, keys(candidates@).take(i as int)).1,
            decreases candidates.len() - i,
        {
            proof {
                assert(keys(candidates@).take(i + 1).drop_last() =~= keys(candidates@).take(
                    i as int,
                ));
            }
            let ghost met = keys(visited@);
            let ghost front = keys(frontier@);
            let canonical = candidates[i].canonical_form();
            if !holds_target(visited, &canonical) {
                visited.push(canonical);
                frontier.push(candidates[i].duplicate());
                assert(keys(visited@) =~= met.push(candidates@[i as int]@.canonical()));
                assert(keys(frontier@) =~= front.push(candidates@[i as int]@));
            }
            i += 1;
        }
        assert(keys(candidates@).take(candidates@.len() as int) =~= keys(candidates@));
    }

    /// Begins a dispatch from the seeds: they are marked visited and form the
    /// first frontier, each canonical form once.
    pub fn start(seeds: Vec<Target>, max_depth: u32) -> (d: Dispatch)
        ensures
            keys(d.visited@) == visit(Seq::<TargetKey>::empty(), keys(seeds@)).0,
            keys(d.frontier@) == visit(Seq::<TargetKey>::empty(), keys(seeds@)).1,
            d.depth == 0,
            d.max_depth == max_depth,
            d.failures@.len() == 0,
    {
        let mut visited: Vec<Target> = Vec::new();
        let mut frontier: Vec<Target> = Vec::new();
        assert(keys(visited@) =~= Seq::<TargetKey>::empty());
        Dispatch::take_in(&mut visited, &mut frontier, &seeds);
        Dispatch { visited, frontier, depth: 0, max_depth, failures: Vec::new() }
    }

    /// Whether the dispatch has come to its end.
    pub fn is_done(&self) -> (r: bool)
        ensures
            r == self.spec_is_done(),
    {
        self.frontier.len() == 0 || self.depth >= self.max_depth
    }

    /// The fetches of the round: for every target of the frontier, every
    /// adapter that takes it. None once the dispatch is done.
    pub fn jobs(&self) -> (list: Vec<Job>)
        ensures
            self.spec_is_done() ==> list@.len() == 0,
            !self.spec_is_done() ==> job_keys(list@) == jobs_of(keys(self.frontier@)),
    {
        let mut list: Vec<Job> = Vec::new();
        if self.is_done() {
            return list;
        }
        let registry = Upstream::registry();
        let mut i: usize = 0;
        assert(keys(self.frontier@).take(0) =~= Seq::<TargetKey>::empty());
        assert(job_keys(list@) =~= jobs_of(keys(self.frontier@).take(0)));
        while i < self.frontier.len()
            invariant
                i <= self.frontier.len(),
                registry@ == Upstream::spec_registry(),
                job_keys(list@) == jobs_of(keys(self.frontier@).take(i as int)),
            decreases self.frontier.len() - i,
        {
            let ghost target = self.frontier@[i as int]@;
            let ghost takes = |u: Upstream| u.spec_can_fetch(target);
            let ghost pair = |u: Upstream| (target, u);
            let ghost head = job_keys(list@);
            proof {
                assert(keys(self.frontier@).take(i + 1).drop_last() =~= keys(self.frontier@).take(
                    i as int,
                ));
                assert(keys(self.frontier@).take(i + 1).last() == target);
            }
            let mut k: usize = 0;
            assert(job_keys(list@) =~= head + registry@.take(0).filter(takes).map_values(pair))
                by {
                reveal(Seq::filter);
            }
            while k < registry.len()
                invariant
                    k <= registry.len(),
                    i < self.frontier.len(),
                    target == self.frontier@[i as int]@,
                    takes == |u: Upstream| u.spec_can_fetch(target),
                    pair == |u: Upstream| (target, u),
                    job_keys(list@) == head + registry@.take(k as int).filter(takes).map_values(
                        pair,
                    ),
                decreases registry.len() - k,
            {
                let ghost kept = registry@.take(k as int).filter(takes);
                let ghost jobs = job_keys(list@);
                proof {
                    reveal(Seq::filter);
                    assert(registry@.take(k + 1).drop_last() =~= registry@.take(k as int));
                    assert(registry@.take(k + 1).last() == registry@[k as int]);
                }
                if registry[k].can_fetch(&self.frontier[i]) {
                    list.push(Job { target: self.frontier[i].duplicate(), upstream: registry[k] });
                    assert(registry@.take(k + 1).filter(takes) == kept.push(registry@[k as int]));
                    assert(kept.push(registry@[k as int]).map_values(pair) =~= kept.map_values(
                        pair,
                    ).push((target, registry@[k as int])));
                    assert(job_keys(list@) =~= jobs.push((target, registry@[k as int])));
                    assert(job_keys(list@) =~= head + registry@.take(k + 1).filter(
                        takes,
                    ).map_values(pair));
                }
                k += 1;
            }
            assert(registry@.take(registry@.len() as int) =~= registry@);
            i += 1;
        }
        assert(keys(self.frontier@).take(self.frontier@.len() as int) =~= keys(self.frontier@));
        list
    }

    /// Ends a round with the outcomes of its fetches. The follow-up targets
    /// of the fetches that succeeded are taken in, each canonical form that
    /// was not met before once, and form the next frontier; the fetches that
    /// failed are recorded and cancel nothing. A dispatch that is done stays
    /// as it is.
    pub fn advance(&mut self, outcomes: Vec<Outcome>)
        ensures
            old(self).spec_is_done() ==> *final(self) == *old(self),
            !old(self).spec_is_done() ==> {
                &&& keys(final(self).visited@) == visit(
                    keys(old(self).visited@),
                    follow_ups(outcomes@),
                ).0
                &&& keys(final(self).frontier@) == visit(
                    keys(old(self).visited@),
                    follow_ups(outcomes@),
                ).1
                &&& final(self).depth == old(self).depth + 1
                &&& final(self).max_depth == old(self).max_depth
                &&& final(self).failures@ == old(self).failures@ + failed(outcomes@)
            },
    {
        if self.is_done() {
            return ;
        }
        let mut outcomes = outcomes;
        let mut candidates: Vec<Target> = Vec::new();
        let ghost all = outcomes@;
        assert(keys(candidates@) + follow_ups(outcomes@) =~= follow_ups(all));
        assert(self.failures@ + failed(outcomes@) =~= old(self).failures@ + failed(all));
        while outcomes.len() > 0
            invariant
                self.visited == old(self).visited,
                self.frontier == old(self).frontier,
                self.depth == old(self).depth,
                self.max_depth == old(self).max_depth,
                !old(self).spec_is_done(),
                keys(candidates@) + follow_ups(outcomes@) == follow_ups(all),
                self.failures@ + failed(outcomes@) == old(self).failures@ + failed(all),
            decreases outcomes.len(),
        {
            let ghost rest = outcomes@.drop_first();
            let ghost met = keys(candidates@);
            let ghost lost = self.failures@;
            let outcome = outcomes.remove(0);
            assert(outcomes@ =~= rest);
            match outcome.result {
                Ok(list) => {
                    let mut list = list;
                    let ghost added = keys(list@);
                    candidates.append(&mut list);
                    assert(keys(candidates@) =~= met + added);
                    assert(keys(candidates@) + follow_ups(outcomes@) =~= met + (added + follow_ups(
                        rest,
                    )));
                },
                Err(error) => {
                    let failure = Failure {
                        target: outcome.target,
                        upstream: outcome.upstream,
                        error,
                    };
                    self.failures.push(failure);
                    assert(self.failures@ + failed(outcomes@) =~= lost + (seq![failure] + failed(
                        rest,
                    )));
                    assert(keys(candidates@) + follow_ups(outcomes@) =~= met + (Seq::<
                        TargetKey,
                    >::empty() + follow_ups(rest)));
                },
            }
        }
        assert(keys(candidates@) =~= follow_ups(all));
        assert(self.failures@ =~= old(self).failures@ + failed(all));
        let mut frontier: Vec<Target> = Vec::new();
        Dispatch::take_in(&mut self.visited, &mut frontier, &candidates);
        self.frontier = frontier;
        self.depth = self.depth + 1;
    }

    /// Ends the dispatch: success where no fetch failed, else the fetches
    /// that failed, target by target, in the order in which they were
    /// recorded.
    pub fn finish(self) -> (r: Result<(), Vec<Failure>>)
        ensures
            self.failures@.len() == 0 ==> r is Ok,
            self.failures@.len() > 0 ==> r is Err && r->Err_0 == self.failures,
    {
        if self.failures.len() == 0 {
            Ok(())
        } else {
            Err(self.failures)
        }
    }
}

} // verus!
