use vstd::prelude::*;
use vstd::multiset::Multiset;

use crate::outcome::AttemptEvent;
use crate::outcome::CheckOutcome;
use crate::outcome::CheckStatus;
use crate::outcome::ResultSet;
use crate::retry::retry_forced_delay_ms;
use crate::retry::retry_status;
use crate::retry::run_attempts;

verus! {

/// The (url, status) pair an outcome contributes to the logical result
/// of a run.
pub open spec fn outcome_pair(outcome: CheckOutcome) -> (Seq<char>, CheckStatus) {
    (outcome.url@, outcome.status)
}

/// The multiset of (url, status) pairs of a sequence of outcomes.
pub open spec fn outcome_pairs(results: Seq<CheckOutcome>) -> Multiset<(Seq<char>, CheckStatus)> {
    results.map_values(|outcome: CheckOutcome| outcome_pair(outcome)).to_multiset()
}

/// Checks every job of the Job Source against its column of attempt
/// results: the sequential meaning of the dispatch-and-aggregation
/// engine, with the HTTP calls already resolved. The drained result
/// set holds exactly one outcome per job — none lost, none duplicated
/// — and entry `k` settles job `k` by the retry policy.
pub fn run_jobs(
    jobs: &Vec<String>,
    events: &Vec<Vec<AttemptEvent>>,
    retries: u32,
    timestamp_secs: u64,
) -> (r: ResultSet)
    requires
        events@.len() == jobs@.len(),
        forall|k: int| 0 <= k < events@.len() ==> #[trigger] events@[k]@.len() == retries + 1,
    ensures
        r@.len() == jobs@.len(),
        forall|k: int|
            0 <= k < r@.len() ==> {
                &&& (#[trigger] r@[k]).url@ == jobs@[k]@
                &&& r@[k].status == retry_status(events@[k]@, (retries + 1) as nat)
                &&& r@[k].elapsed_ms == retry_forced_delay_ms(events@[k]@, (retries + 1) as nat)
                &&& r@[k].timestamp_secs == timestamp_secs
                &&& (forall|e: int| 0 <= e < events@[k]@.len() ==> (#[trigger] events@[k]@[e]).wf())
                    ==> r@[k].wf()
            },
{
    let mut results = ResultSet::new();
    let mut k: usize = 0;
    while k < jobs.len()
        invariant
            k <= jobs@.len(),
            events@.len() == jobs@.len(),
            forall|t: int| 0 <= t < events@.len() ==> #[trigger] events@[t]@.len() == retries + 1,
            results@.len() == k,
            forall|t: int|
                0 <= t < k ==> {
                    &&& (#[trigger] results@[t]).url@ == jobs@[t]@
                    &&& results@[t].status == retry_status(events@[t]@, (retries + 1) as nat)
                    &&& results@[t].elapsed_ms == retry_forced_delay_ms(
                        events@[t]@,
                        (retries + 1) as nat,
                    )
                    &&& results@[t].timestamp_secs == timestamp_secs
                    &&& (forall|e: int|
                        0 <= e < events@[t]@.len() ==> (#[trigger] events@[t]@[e]).wf())
                        ==> results@[t].wf()
                },
        decreases jobs@.len() - k,
    {
        let run = run_attempts(&events[k], retries);
        let outcome = CheckOutcome {
            url: jobs[k].clone(),
            status: run.status,
            elapsed_ms: run.forced_delay_ms,
            timestamp_secs,
        };
        results.append(outcome);
        k = k + 1;
    }
    results
}

/// Mapping a function over two sequences that hold the same elements
/// (as multisets) yields the same multiset of images.
proof fn lemma_map_preserves_multiset<A, B>(s: Seq<A>, t: Seq<A>, f: spec_fn(A) -> B)
    requires
        s.to_multiset() == t.to_multiset(),
    ensures
        s.map_values(f).to_multiset() == t.map_values(f).to_multiset(),
    decreases s.len(),
{
    broadcast use vstd::seq_lib::group_to_multiset_ensures;

    if s.len() == 0 {
        assert(s.to_multiset().len() == 0);
        assert(t.to_multiset().len() == 0);
        assert(t.len() == 0);
        assert(s.map_values(f) =~= Seq::<B>::empty());
        assert(t.map_values(f) =~= Seq::<B>::empty());
    } else {
        let x = s[0];
        assert(s.contains(x));
        assert(t.to_multiset().count(x) > 0);
        assert(t.contains(x));
        let j = choose|j: int| 0 <= j < t.len() && t[j] == x;
        assert(s.remove(0).to_multiset() == s.to_multiset().remove(x));
        assert(t.remove(j).to_multiset() == t.to_multiset().remove(x));
        lemma_map_preserves_multiset(s.remove(0), t.remove(j), f);
        assert(s.map_values(f).remove(0) =~= s.remove(0).map_values(f));
        assert(t.map_values(f).remove(j) =~= t.remove(j).map_values(f));
        assert(s.map_values(f).remove(0).to_multiset() == s.map_values(f).to_multiset().remove(
            f(x),
        ));
        assert(t.map_values(f).remove(j).to_multiset() == t.map_values(f).to_multiset().remove(
            f(t[j]),
        ));
        assert(s.map_values(f).contains(f(x)));
        assert(t.map_values(f).contains(f(x)));
        assert(s.map_values(f).to_multiset() =~= s.map_values(f).to_multiset().remove(f(x)).insert(
            f(x),
        ));
        assert(t.map_values(f).to_multiset() =~= t.map_values(f).to_multiset().remove(f(x)).insert(
            f(x),
        ));
    }
}

/// Workers only change the order in which finished outcomes reach the
/// result set: a drain in any order — any rearrangement of the per-job
/// outcomes — holds exactly the same outcomes as the jobs-in-order
/// drain.
pub proof fn lemma_drain_order_irrelevant(outcomes: Seq<CheckOutcome>, order: Seq<int>)
    requires
        order.to_multiset() == Seq::new(outcomes.len(), |k: int| k).to_multiset(),
    ensures
        Seq::new(order.len(), |j: int| outcomes[order[j]]).to_multiset() == outcomes.to_multiset(),
{
    broadcast use vstd::seq_lib::group_to_multiset_ensures;

    let ident = Seq::new(outcomes.len(), |k: int| k);
    let f = |k: int| outcomes[k];
    lemma_map_preserves_multiset(order, ident, f);
    assert(order.map_values(f) =~= Seq::new(order.len(), |j: int| outcomes[order[j]]));
    assert(ident.map_values(f) =~= outcomes);
}

/// The worker count never changes logical outcomes: a run whose workers
/// drain the same per-job outcomes in any order yields the same
/// multiset of (url, status) pairs as the jobs-in-order run.
pub proof fn lemma_worker_count_immaterial(outcomes: Seq<CheckOutcome>, order: Seq<int>)
    requires
        order.to_multiset() == Seq::new(outcomes.len(), |k: int| k).to_multiset(),
    ensures
        outcome_pairs(Seq::new(order.len(), |j: int| outcomes[order[j]])) == outcome_pairs(
            outcomes,
        ),
{
    lemma_drain_order_irrelevant(outcomes, order);
    lemma_map_preserves_multiset(
        Seq::new(order.len(), |j: int| outcomes[order[j]]),
        outcomes,
        |outcome: CheckOutcome| outcome_pair(outcome),
    );
}

} // verus!
