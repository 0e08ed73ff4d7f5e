use vstd::prelude::*;

use crate::errors::AdapterError;

verus! {

/// The flat per-invocation cost estimate, in millionths of a currency unit.
pub const COST_MICROS_PER_CALL: u64 = 15000;

/// How one backend invocation ended: a usable text, a missed deadline, or an
/// adapter-scoped fault.  Backend faults never escalate past the aggregation.
pub enum ScatterOutcome {
    Success(String),
    TimedOut,
    Failed(AdapterError),
}

/// One entry of the scatter table: the outcome of one backend invocation,
/// kept in adapter registration order, never completion order.
pub struct ScatterResult {
    pub adapter_name: String,
    pub outcome: ScatterOutcome,
    pub elapsed_ms: u64,
}

/// The one consolidated answer produced per request.
#[derive(Debug)]
pub struct AggregatedResponse {
    pub consolidated_text: String,
    pub winning_adapter: Option<String>,
    pub total_cost_estimate_micros: u64,
    pub count_succeeded: u64,
}

/// The deterministic text returned when no backend produced an answer.
pub open spec fn no_response_sentinel() -> Seq<char> {
    "no backend responded"@
}

pub open spec fn is_success(o: ScatterOutcome) -> bool {
    o matches ScatterOutcome::Success(_)
}

pub open spec fn success_text(o: ScatterOutcome) -> Seq<char> {
    match o {
        ScatterOutcome::Success(t) => t@,
        _ => Seq::empty(),
    }
}

/// How many entries of the scatter table carry a successful outcome.
pub open spec fn count_successes(rs: Seq<ScatterResult>) -> nat
    decreases rs.len(),
{
    if rs.len() == 0 {
        0
    } else {
        count_successes(rs.drop_last()) + if is_success(rs.last().outcome) {
            1nat
        } else {
            0nat
        }
    }
}

pub proof fn lemma_count_successes_le_len(rs: Seq<ScatterResult>)
    ensures
        count_successes(rs) <= rs.len(),
    decreases rs.len(),
{
    if rs.len() > 0 {
        lemma_count_successes_le_len(rs.drop_last());
    }
}

/// The first index at or after `i` whose outcome is a success, or the length
/// of the table when there is none.
pub open spec fn first_success_from(rs: Seq<ScatterResult>, i: int) -> int
    decreases rs.len() - i,
{
    if i < 0 || i >= rs.len() {
        rs.len() as int
    } else if is_success(rs[i].outcome) {
        i
    } else {
        first_success_from(rs, i + 1)
    }
}

/// The index of the winning adapter: the first success in registration
/// order, or the length of the table when no backend succeeded.
pub open spec fn first_success(rs: Seq<ScatterResult>) -> int {
    first_success_from(rs, 0)
}

pub proof fn lemma_first_success_from_props(rs: Seq<ScatterResult>, i: int)
    requires
        0 <= i <= rs.len(),
    ensures
        i <= first_success_from(rs, i) <= rs.len(),
        first_success_from(rs, i) < rs.len() ==> is_success(
            rs[first_success_from(rs, i)].outcome,
        ),
        forall|k: int|
            i <= k < first_success_from(rs, i) ==> !is_success(#[trigger] rs[k].outcome),
    decreases rs.len() - i,
{
    if i < rs.len() && !is_success(rs[i].outcome) {
        lemma_first_success_from_props(rs, i + 1);
    }
}

/// The winner index is pinned by its characterization: a success whose every
/// predecessor failed is the winner.
pub proof fn lemma_first_success_at(rs: Seq<ScatterResult>, w: int)
    requires
        0 <= w < rs.len(),
        is_success(rs[w].outcome),
        forall|k: int| 0 <= k < w ==> !is_success(#[trigger] rs[k].outcome),
    ensures
        first_success(rs) == w,
{
    lemma_first_success_from_props(rs, 0);
    let fs = first_success(rs);
    if fs < w {
        assert(!is_success(rs[fs].outcome));
    }
    if fs > w {
        assert(!is_success(rs[w].outcome));
    }
}

/// Registration order decides the winner, never wall-clock completion order:
/// when the adapter at position `a` succeeds, every earlier one failed, and
/// some later position `b` also succeeds, the winner is still `a`.
pub proof fn lemma_winner_deterministic(rs: Seq<ScatterResult>, a: int, b: int)
    requires
        0 <= a < b < rs.len(),
        is_success(rs[a].outcome),
        is_success(rs[b].outcome),
        forall|k: int| 0 <= k < a ==> !is_success(#[trigger] rs[k].outcome),
    ensures
        first_success(rs) == a,
{
    lemma_first_success_at(rs, a);
}

/// When every backend failed or timed out, the success count is zero and no
/// winner exists; the caller still logs the request and counts it.
pub proof fn lemma_no_success_means_zero(rs: Seq<ScatterResult>)
    requires
        forall|k: int| 0 <= k < rs.len() ==> !is_success(#[trigger] rs[k].outcome),
    ensures
        count_successes(rs) == 0,
        first_success(rs) == rs.len(),
    decreases rs.len(),
{
    lemma_first_success_from_props(rs, 0);
    let fs = first_success(rs);
    if fs < rs.len() {
        assert(!is_success(rs[fs].outcome));
    }
    if rs.len() > 0 {
        assert(rs.drop_last() =~= rs.take(rs.len() - 1));
        assert(forall|k: int|
            0 <= k < rs.drop_last().len() ==> !is_success(
                #[trigger] rs.drop_last()[k].outcome,
            ));
        lemma_no_success_means_zero(rs.drop_last());
    }
}

/// What the aggregation policy owes for a scatter table `rs`: the success
/// count counts every slot, the cost estimate is flat per success, the winner
/// is the first success in registration order, and the consolidated text is
/// the winner's text or the deterministic sentinel.
pub open spec fn aggregated_correctly(rs: Seq<ScatterResult>, a: AggregatedResponse) -> bool {
    &&& a.count_succeeded == count_successes(rs)
    &&& a.total_cost_estimate_micros == COST_MICROS_PER_CALL * count_successes(rs)
    &&& first_success(rs) < rs.len() ==> (a.winning_adapter matches Some(w) && w@
        == rs[first_success(rs)].adapter_name@)
    &&& first_success(rs) < rs.len() ==> a.consolidated_text@ == success_text(
        rs[first_success(rs)].outcome,
    )
    &&& first_success(rs) == rs.len() ==> a.winning_adapter is None
    &&& first_success(rs) == rs.len() ==> a.consolidated_text@ == no_response_sentinel()
}

/// The full-barrier aggregation policy, applied once every launched
/// invocation has completed, failed, or timed out.
pub fn aggregate(results: &Vec<ScatterResult>) -> (r: AggregatedResponse)
    requires
        results@.len() * COST_MICROS_PER_CALL <= u64::MAX,
    ensures
        aggregated_correctly(results@, r),
{
    let n = results.len();
    let mut count: u64 = 0;
    let mut winner_idx: usize = n;
    let mut i: usize = 0;
    proof {
        assert(results@.take(0) =~= Seq::<ScatterResult>::empty());
    }
    while i < n
        invariant
            0 <= i <= n,
            n == results@.len(),
            count == count_successes(results@.take(i as int)),
            count <= i,
            winner_idx <= n,
            winner_idx < n ==> winner_idx < i && is_success(results@[winner_idx as int].outcome)
                && (forall|k: int|
                0 <= k < winner_idx ==> !is_success(#[trigger] results@[k].outcome)),
            winner_idx == n ==> forall|k: int|
                0 <= k < i ==> !is_success(#[trigger] results@[k].outcome),
        decreases n - i,
    {
        match &results[i].outcome {
            ScatterOutcome::Success(_) => {
                count = count + 1;
                if winner_idx == n {
                    winner_idx = i;
                }
            },
            _ => {},
        }
        proof {
            assert(results@.take(i as int + 1).drop_last() =~= results@.take(i as int));
            assert(results@.take(i as int + 1).last() == results@[i as int]);
        }
        i = i + 1;
    }
    proof {
        assert(results@.take(n as int) =~= results@);
        lemma_count_successes_le_len(results@);
    }
    let (winning_adapter, consolidated_text): (Option<String>, String) = if winner_idx < n {
        proof {
            lemma_first_success_at(results@, winner_idx as int);
        }
        let name = results[winner_idx].adapter_name.clone();
        let text = match &results[winner_idx].outcome {
            ScatterOutcome::Success(t) => t.clone(),
            _ => vstd::pervasive::unreached(),
        };
        (Some(name), text)
    } else {
        proof {
            lemma_no_success_means_zero(results@);
        }
        (None, "no backend responded".to_owned())
    };
    AggregatedResponse {
        consolidated_text,
        winning_adapter,
        total_cost_estimate_micros: COST_MICROS_PER_CALL * count,
        count_succeeded: count,
    }
}

} // verus!
