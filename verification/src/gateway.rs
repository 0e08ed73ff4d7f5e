use vstd::prelude::*;

use crate::errors::GatewayError;
use crate::persistence::{LogRecord, LogRecordView};
use crate::registry::{AdapterDescriptor, AdapterDescriptorView, AdapterRegistry, Capability};
use crate::scatter::{
    aggregate, aggregated_correctly, AggregatedResponse, ScatterResult, COST_MICROS_PER_CALL,
};
use crate::state::AppState;

verus! {

/// One inbound request: the prompt text, an optional model hint the chat
/// adapters may forward, and whether the request asks for the auxiliary
/// search enrichment step.
pub struct Prompt {
    pub text: String,
    pub model_hint: String,
    pub needs_search: bool,
}

/// The selection policy of the orchestrator: every chat-tagged adapter is
/// invoked; a search-tagged adapter only when the prompt asks for it.
pub open spec fn selected(d: AdapterDescriptorView, needs_search: bool) -> bool {
    d.capability == Capability::Chat || (needs_search && d.capability == Capability::Search)
}

/// The adapters chosen for one request, in registration order.
pub open spec fn selection_of(regs: Seq<AdapterDescriptorView>, needs_search: bool) -> Seq<
    AdapterDescriptorView,
>
    decreases regs.len(),
{
    if regs.len() == 0 {
        Seq::empty()
    } else {
        let rest = selection_of(regs.drop_last(), needs_search);
        if selected(regs.last(), needs_search) {
            rest.push(regs.last())
        } else {
            rest
        }
    }
}

/// The winner name persisted when no backend succeeded.
pub open spec fn no_winner_label() -> Seq<char> {
    "none"@
}

/// The log record summarizing one aggregated response.
pub open spec fn logged_view(
    prompt_text: Seq<char>,
    a: AggregatedResponse,
    duration_ms: u64,
    created_at: u64,
) -> LogRecordView {
    LogRecordView {
        prompt_text,
        winner: match a.winning_adapter {
            Some(w) => w@,
            None => no_winner_label(),
        },
        response_text: a.consolidated_text@,
        duration_ms,
        created_at,
    }
}

/// Build the one Request Log Record for a completed request.  It is written
/// even when no backend succeeded, so that every completed request leaves
/// exactly one record.
pub fn build_record(
    prompt: &Prompt,
    agg: &AggregatedResponse,
    duration_ms: u64,
    created_at: u64,
) -> (rec: LogRecord)
    ensures
        rec@ == logged_view(prompt.text@, *agg, duration_ms, created_at),
{
    let winner = match &agg.winning_adapter {
        Some(w) => w.clone(),
        None => "none".to_owned(),
    };
    LogRecord {
        prompt_text: prompt.text.clone(),
        winner,
        response_text: agg.consolidated_text.clone(),
        duration_ms,
        created_at,
    }
}

/// The gateway's orchestrator core: the adapter registry and the shared
/// state it reads and commits to.  The transport layers drive the actual
/// wire calls; every decision is made here.
pub struct MyGateway {
    pub registry: AdapterRegistry,
    pub state: AppState,
}

/// The read-only snapshot served to the dashboard.
pub struct GatewayStats {
    pub status: String,
    pub active_models: Vec<String>,
    pub total_requests_processed: u64,
}

impl MyGateway {
    /// The one-record-per-request invariant: every counted request left
    /// exactly one record in the log, so the counter and the log agree.
    pub open spec fn counted_matches_logged(&self) -> bool {
        self.state.total_requests == self.state.log.view_seq().len()
    }

    pub fn new(registry: AdapterRegistry) -> (g: MyGateway)
        ensures
            g.registry == registry,
            g.state.total_requests == 0,
            g.state.log.view_seq() == Seq::<LogRecordView>::empty(),
            g.counted_matches_logged(),
    {
        MyGateway { registry, state: AppState::new() }
    }

    /// Step one of a request: choose the adapters to invoke.  With nothing to
    /// invoke the request fails before any work starts, leaving no record and
    /// no counter change (this method cannot mutate at all).
    pub fn plan_invocations(&self, prompt: &Prompt) -> (r: Result<
        Vec<AdapterDescriptor>,
        GatewayError,
    >)
        ensures
            selection_of(self.registry.view_seq(), prompt.needs_search).len() == 0 ==> (r matches Err(e)
                && e == GatewayError::PreconditionFault),
            selection_of(self.registry.view_seq(), prompt.needs_search).len() > 0 ==> (r matches Ok(v)
                && v@.map_values(|d: AdapterDescriptor| d@) == selection_of(
                self.registry.view_seq(),
                prompt.needs_search,
            )),
    {
        let ghost regs = self.registry.view_seq();
        let n = self.registry.adapters.len();
        let mut plan: Vec<AdapterDescriptor> = Vec::new();
        let mut i: usize = 0;
        proof {
            assert(plan@.map_values(|d: AdapterDescriptor| d@) =~= selection_of(
                regs.take(0),
                prompt.needs_search,
            ));
        }
        while i < n
            invariant
                i <= n,
                n == regs.len(),
                regs == self.registry.view_seq(),
                plan@.map_values(|d: AdapterDescriptor| d@) == selection_of(
                    regs.take(i as int),
                    prompt.needs_search,
                ),
            decreases n - i,
        {
            let ghost pre = plan@.map_values(|d: AdapterDescriptor| d@);
            let d = &self.registry.adapters[i];
            let take_it = match d.capability {
                Capability::Chat => true,
                Capability::Search => prompt.needs_search,
            };
            if take_it {
                plan.push(d.clone());
                proof {
                    assert(plan@.map_values(|d: AdapterDescriptor| d@) =~= pre.push(
                        regs[i as int],
                    ));
                }
            }
            proof {
                assert(regs.take(i as int + 1).drop_last() =~= regs.take(i as int));
                assert(regs.take(i as int + 1).last() == regs[i as int]);
            }
            i = i + 1;
        }
        proof {
            assert(regs.take(n as int) =~= regs);
        }
        if plan.is_empty() {
            Err(GatewayError::PreconditionFault)
        } else {
            Ok(plan)
        }
    }

    /// Steps six and seven of a request, after the barrier join: persist the
    /// record, then count the request — exactly once, whatever the backends
    /// did.  `store_ok` carries the outcome the persistence connection
    /// reported for this record's write.  A failed write surfaces as an
    /// aggregation fault and leaves the state untouched: the write-before-
    /// respond order means an uncommitted request is never counted.
    pub fn commit_request(&mut self, rec: LogRecord, store_ok: bool) -> (r: Result<
        (),
        GatewayError,
    >)
        requires
            old(self).state.total_requests < u64::MAX,
        ensures
            store_ok ==> r is Ok
                && final(self).state.log.view_seq() == old(self).state.log.view_seq().push(rec@)
                && final(self).state.total_requests == old(self).state.total_requests + 1
                && final(self).registry == old(self).registry,
            !store_ok ==> (r matches Err(e) && e == GatewayError::AggregationFault) && *final(self)
                == *old(self),
            old(self).counted_matches_logged() ==> final(self).counted_matches_logged(),
    {
        if store_ok {
            self.state.log.append(rec);
            self.state.total_requests = self.state.total_requests + 1;
            Ok(())
        } else {
            Err(GatewayError::AggregationFault)
        }
    }

    /// The whole decision path of one request, once the transport layer has
    /// driven the planned invocations to completion and filled the scatter
    /// table (one slot per planned adapter, registration order): aggregate,
    /// build the record, commit, respond.  An empty selection fails first,
    /// with nothing attempted, nothing logged and nothing counted; a failed
    /// persistence write fails the call and changes nothing; otherwise the
    /// record is appended and the counter moves up by exactly one.
    pub fn execute_prompt(
        &mut self,
        prompt: &Prompt,
        results: &Vec<ScatterResult>,
        duration_ms: u64,
        created_at: u64,
        store_ok: bool,
    ) -> (r: Result<AggregatedResponse, GatewayError>)
        requires
            old(self).state.total_requests < u64::MAX,
            results@.len() * COST_MICROS_PER_CALL <= u64::MAX,
            results@.len() == selection_of(
                old(self).registry.view_seq(),
                prompt.needs_search,
            ).len(),
        ensures
            selection_of(old(self).registry.view_seq(), prompt.needs_search).len() == 0 ==> (r matches Err(e)
                && e == GatewayError::PreconditionFault) && *final(self) == *old(self),
            selection_of(old(self).registry.view_seq(), prompt.needs_search).len() > 0 && store_ok
                ==> (r matches Ok(a) && aggregated_correctly(results@, a)
                && final(self).state.log.view_seq() == old(self).state.log.view_seq().push(
                    logged_view(prompt.text@, a, duration_ms, created_at))
                && final(self).state.total_requests == old(self).state.total_requests + 1
                && final(self).registry == old(self).registry),
            selection_of(old(self).registry.view_seq(), prompt.needs_search).len() > 0 && !store_ok
                ==> (r matches Err(e) && e == GatewayError::AggregationFault) && *final(self)
                == *old(self),
            old(self).counted_matches_logged() ==> final(self).counted_matches_logged(),
    {
        match self.plan_invocations(prompt) {
            Err(e) => Err(e),
            Ok(_plan) => {
                let agg = aggregate(results);
                let rec = build_record(prompt, &agg, duration_ms, created_at);
                match self.commit_request(rec, store_ok) {
                    Ok(_) => Ok(agg),
                    Err(e) => Err(e),
                }
            },
        }
    }

    /// The dashboard status snapshot: one active-model entry per configured
    /// adapter, and the exact request count.
    pub fn stats(&self) -> (s: GatewayStats)
        ensures
            s.status@ == "Running"@,
            s.active_models@.len() == self.registry.view_seq().len(),
            forall|i: int|
                0 <= i < s.active_models@.len() ==> (#[trigger] s.active_models@[i])@
                    == self.registry.view_seq()[i].name,
            s.total_requests_processed == self.state.total_requests,
    {
        let n = self.registry.adapters.len();
        let mut active_models: Vec<String> = Vec::new();
        let mut i: usize = 0;
        while i < n
            invariant
                i <= n,
                n == self.registry.view_seq().len(),
                active_models@.len() == i,
                forall|k: int|
                    0 <= k < i ==> (#[trigger] active_models@[k])@
                        == self.registry.view_seq()[k].name,
            decreases n - i,
        {
            active_models.push(self.registry.adapters[i].name.clone());
            i = i + 1;
        }
        GatewayStats {
            status: "Running".to_owned(),
            active_models,
            total_requests_processed: self.state.total_requests,
        }
    }
}

} // verus!
