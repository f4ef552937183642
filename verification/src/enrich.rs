//! The enrichment task: turns one routing request into one estimate request
//! or drops it, in the fixed order signer, account entry, base-fee policy,
//! publish. A per-request state machine captures the task's lifecycle and
//! shows that one request is published at most once.
use vstd::prelude::*;
use crate::fee::{gas_limit, gas_limit_spec, priority_fee, priority_fee_spec};
use crate::types::{
    AccountEntry, EnrichError, EstimateRequest, RoutingRequest, SigningIdentity, WeiAmount,
};

verus! {

/// The estimate built from `request` once the signing identity and its
/// account snapshot are fixed: the request itself, the snapshot, the doubled
/// gas budget, the capped priority fee, and a zero transfer value.
pub open spec fn enriched_spec<S>(
    request: RoutingRequest<S>,
    signer: SigningIdentity,
    account: AccountEntry,
    cap: u64,
) -> EstimateRequest<S> {
    EstimateRequest {
        routing: request,
        signer: signer,
        nonce: account.nonce,
        eth_balance: account.balance,
        gas: gas_limit_spec(request.pre_estimate_gas) as u64,
        priority_gas_fee: priority_fee_spec(request.next_block_base_fee, cap),
        value: WeiAmount { hi: 0, lo: 0 },
    }
}

/// What one enrichment decides for `request`, given the signer pool's answer
/// and the account tracker's entry for the chosen signer. The checks come in
/// the order the task performs them: signer availability first, then the
/// account entry, then the base-fee policy.
pub open spec fn enrich_spec<S>(
    request: RoutingRequest<S>,
    signer: Option<SigningIdentity>,
    account: Option<AccountEntry>,
    cap: u64,
) -> Result<EstimateRequest<S>, EnrichError> {
    match signer {
        None => Err(EnrichError::ResourceUnavailable),
        Some(s) => match account {
            None => Err(EnrichError::DataIntegrityGap),
            Some(a) => if request.next_block_base_fee == 0 {
                Err(EnrichError::PolicyViolation)
            } else {
                Ok(enriched_spec(request, s, a, cap))
            },
        },
    }
}

/// Enrich one routing request: succeeds exactly when a signer is available,
/// its account entry is present, and the anticipated base fee is non-zero;
/// the estimate then carries the doubled gas budget, the capped priority fee,
/// the snapshotted nonce and balance, and a zero transfer value.
pub fn enrich<S>(
    request: RoutingRequest<S>,
    signer: Option<SigningIdentity>,
    account: Option<AccountEntry>,
    cap: u64,
) -> (r: Result<EstimateRequest<S>, EnrichError>)
    requires
        2 * request.pre_estimate_gas <= u64::MAX,
    ensures
        r == enrich_spec(request, signer, account, cap),
        r is Ok <==> (signer is Some && account is Some && request.next_block_base_fee != 0),
        r matches Ok(e) ==> {
            &&& e.routing == request
            &&& signer matches Some(s) && e.signer == s
            &&& account matches Some(a) && e.nonce == a.nonce && e.eth_balance == a.balance
            &&& e.gas == 2 * request.pre_estimate_gas
            &&& e.priority_gas_fee == priority_fee_spec(request.next_block_base_fee, cap)
            &&& e.value.as_nat() == 0
            &&& e.well_formed(cap)
        },
{
    match signer {
        None => Err(EnrichError::ResourceUnavailable),
        Some(s) => match account {
            None => Err(EnrichError::DataIntegrityGap),
            Some(a) => if request.next_block_base_fee == 0 {
                Err(EnrichError::PolicyViolation)
            } else {
                let gas = gas_limit(request.pre_estimate_gas);
                let priority_gas_fee = priority_fee(request.next_block_base_fee, cap);
                Ok(EstimateRequest {
                    routing: request,
                    signer: s,
                    nonce: a.nonce,
                    eth_balance: a.balance,
                    gas,
                    priority_gas_fee,
                    value: WeiAmount::zero(),
                })
            },
        },
    }
}

/// Every estimate pays the capped priority fee: the smaller of the request's
/// anticipated base fee and the fixed policy cap, and so never more than
/// either.
pub proof fn lemma_priority_fee_capped<S>(
    request: RoutingRequest<S>,
    signer: Option<SigningIdentity>,
    account: Option<AccountEntry>,
    cap: u64,
)
    ensures
        enrich_spec(request, signer, account, cap) matches Ok(e) ==> {
            &&& e.priority_gas_fee == priority_fee_spec(request.next_block_base_fee, cap)
            &&& e.priority_gas_fee <= cap
            &&& e.priority_gas_fee <= request.next_block_base_fee
        },
{
}

/// Every estimate's gas limit is twice the upstream pre-estimate, independent
/// of every other field of the request and of the snapshot.
pub proof fn lemma_gas_doubled<S>(
    request: RoutingRequest<S>,
    signer: Option<SigningIdentity>,
    account: Option<AccountEntry>,
    cap: u64,
)
    requires
        2 * request.pre_estimate_gas <= u64::MAX,
    ensures
        enrich_spec(request, signer, account, cap) matches Ok(e)
            ==> e.gas == 2 * request.pre_estimate_gas,
{
}

/// Every estimate carries a zero transfer value.
pub proof fn lemma_value_zero<S>(
    request: RoutingRequest<S>,
    signer: Option<SigningIdentity>,
    account: Option<AccountEntry>,
    cap: u64,
)
    ensures
        enrich_spec(request, signer, account, cap) matches Ok(e) ==> e.value.as_nat() == 0,
{
}

/// Where one request stands in its lifecycle: received, enriched and awaiting
/// the publish outcome, published, or dropped. Published and Dropped are
/// terminal.
#[derive(Clone, PartialEq, Eq, Debug)]
pub enum TaskPhase<S> {
    Received(RoutingRequest<S>),
    Enriched(EstimateRequest<S>),
    Published(EstimateRequest<S>),
    Dropped(EnrichError),
}

/// What the task learns from outside between phases: the shared-state
/// snapshot (the pool's answer and the tracker's entry), or the bus's answer
/// to the publish.
#[derive(Clone, Copy, PartialEq, Eq, Debug)]
pub enum TaskEvent {
    Resources { signer: Option<SigningIdentity>, account: Option<AccountEntry> },
    PublishResult { accepted: bool },
}

/// One transition of the per-request lifecycle. A received request is
/// enriched or dropped on its resource snapshot; an enriched request is
/// published or dropped on the bus's answer; terminal phases absorb every
/// event, and an event out of protocol order changes nothing.
pub open spec fn task_step_spec<S>(phase: TaskPhase<S>, cap: u64, event: TaskEvent) -> TaskPhase<S> {
    match phase {
        TaskPhase::Received(req) => match event {
            TaskEvent::Resources { signer, account } => match enrich_spec(req, signer, account, cap) {
                Ok(e) => TaskPhase::Enriched(e),
                Err(err) => TaskPhase::Dropped(err),
            },
            _ => TaskPhase::Received(req),
        },
        TaskPhase::Enriched(e) => match event {
            TaskEvent::PublishResult { accepted } => if accepted {
                TaskPhase::Published(e)
            } else {
                TaskPhase::Dropped(EnrichError::TransportFailure)
            },
            _ => TaskPhase::Enriched(e),
        },
        other => other,
    }
}

/// Advance one request's lifecycle by one event.
pub fn task_step<S>(phase: TaskPhase<S>, cap: u64, event: TaskEvent) -> (next: TaskPhase<S>)
    requires
        phase matches TaskPhase::Received(req) ==> 2 * req.pre_estimate_gas <= u64::MAX,
    ensures
        next == task_step_spec(phase, cap, event),
{
    match phase {
        TaskPhase::Received(req) => match event {
            TaskEvent::Resources { signer, account } => match enrich(req, signer, account, cap) {
                Ok(e) => TaskPhase::Enriched(e),
                Err(err) => TaskPhase::Dropped(err),
            },
            _ => TaskPhase::Received(req),
        },
        TaskPhase::Enriched(e) => match event {
            TaskEvent::PublishResult { accepted } => if accepted {
                TaskPhase::Published(e)
            } else {
                TaskPhase::Dropped(EnrichError::TransportFailure)
            },
            _ => TaskPhase::Enriched(e),
        },
        other => other,
    }
}

/// The phase one request reaches after the whole event sequence.
pub open spec fn task_run_spec<S>(phase: TaskPhase<S>, cap: u64, events: Seq<TaskEvent>) -> TaskPhase<S>
    decreases events.len(),
{
    if events.len() == 0 {
        phase
    } else {
        task_run_spec(task_step_spec(phase, cap, events[0]), cap, events.drop_first())
    }
}

/// How many times the run publishes: the number of transitions into the
/// Published phase along the event sequence.
pub open spec fn publish_count<S>(phase: TaskPhase<S>, cap: u64, events: Seq<TaskEvent>) -> nat
    decreases events.len(),
{
    if events.len() == 0 {
        0
    } else {
        let next = task_step_spec(phase, cap, events[0]);
        let here: nat = if !(phase is Published) && next is Published { 1 } else { 0 };
        here + publish_count(next, cap, events.drop_first())
    }
}

/// Published is terminal: once a request is published, every further event
/// leaves it published and nothing more is ever published for it.
pub proof fn lemma_published_is_terminal<S>(phase: TaskPhase<S>, cap: u64, events: Seq<TaskEvent>)
    requires
        phase is Published,
    ensures
        task_run_spec(phase, cap, events) == phase,
        publish_count(phase, cap, events) == 0,
    decreases events.len(),
{
    if events.len() > 0 {
        lemma_published_is_terminal(task_step_spec(phase, cap, events[0]), cap, events.drop_first());
    }
}

/// Dropped is terminal: a dropped request stays dropped, with its original
/// drop reason, and is never published.
pub proof fn lemma_dropped_is_terminal<S>(phase: TaskPhase<S>, cap: u64, events: Seq<TaskEvent>)
    requires
        phase is Dropped,
    ensures
        task_run_spec(phase, cap, events) == phase,
        publish_count(phase, cap, events) == 0,
    decreases events.len(),
{
    if events.len() > 0 {
        lemma_dropped_is_terminal(task_step_spec(phase, cap, events[0]), cap, events.drop_first());
    }
}

/// No more than one estimate request is ever published for one routing
/// request, whatever events its task sees.
pub proof fn lemma_publish_at_most_once<S>(phase: TaskPhase<S>, cap: u64, events: Seq<TaskEvent>)
    ensures
        publish_count(phase, cap, events) <= 1,
    decreases events.len(),
{
    if events.len() > 0 {
        let next = task_step_spec(phase, cap, events[0]);
        if !(phase is Published) && next is Published {
            lemma_published_is_terminal(next, cap, events.drop_first());
        } else {
            lemma_publish_at_most_once(next, cap, events.drop_first());
        }
    }
}

/// For a routing request with a non-zero anticipated base fee, an available
/// signer whose account entry is present, and a bus that accepts the publish,
/// exactly one estimate request is published — the enrichment of the request
/// — and no further event publishes anything more.
pub proof fn lemma_success_publishes_exactly_once<S>(
    request: RoutingRequest<S>,
    signer: SigningIdentity,
    account: AccountEntry,
    cap: u64,
    later: Seq<TaskEvent>,
)
    requires
        request.next_block_base_fee != 0,
    ensures
        ({
            let events = seq![
                TaskEvent::Resources { signer: Some(signer), account: Some(account) },
                TaskEvent::PublishResult { accepted: true },
            ] + later;
            &&& task_run_spec(TaskPhase::Received(request), cap, events)
                == TaskPhase::Published(enriched_spec(request, signer, account, cap))
            &&& publish_count(TaskPhase::Received(request), cap, events) == 1
        }),
{
    let e0 = TaskEvent::Resources { signer: Some(signer), account: Some(account) };
    let e1 = TaskEvent::PublishResult { accepted: true };
    let events = seq![e0, e1] + later;
    let enriched = TaskPhase::<S>::Enriched(enriched_spec(request, signer, account, cap));
    let published = TaskPhase::<S>::Published(enriched_spec(request, signer, account, cap));
    let tail = events.drop_first();
    assert(events[0] == e0);
    assert(tail =~= seq![e1] + later);
    assert(task_step_spec(TaskPhase::Received(request), cap, e0) == enriched);
    assert(tail[0] == e1);
    assert(tail.drop_first() =~= later);
    assert(task_step_spec(enriched, cap, e1) == published);
    lemma_published_is_terminal(published, cap, later);
    assert(task_run_spec(TaskPhase::Received(request), cap, events)
        == task_run_spec(enriched, cap, tail));
    assert(task_run_spec(enriched, cap, tail) == task_run_spec(published, cap, later));
    assert(publish_count(TaskPhase::Received(request), cap, events)
        == publish_count(enriched, cap, tail));
    assert(publish_count(enriched, cap, tail) == 1 + publish_count(published, cap, later));
}

/// A request whose anticipated base fee is zero is never published: once its
/// task sees the shared-state snapshot it is dropped with PolicyViolation
/// (the signer and its account entry being present), and stays dropped.
pub proof fn lemma_zero_base_fee_drops<S>(
    request: RoutingRequest<S>,
    signer: SigningIdentity,
    account: AccountEntry,
    cap: u64,
    later: Seq<TaskEvent>,
)
    requires
        request.next_block_base_fee == 0,
    ensures
        ({
            let events = seq![
                TaskEvent::Resources { signer: Some(signer), account: Some(account) },
            ] + later;
            &&& task_run_spec(TaskPhase::Received(request), cap, events)
                == TaskPhase::<S>::Dropped(EnrichError::PolicyViolation)
            &&& publish_count(TaskPhase::Received(request), cap, events) == 0
        }),
{
    let e0 = TaskEvent::Resources { signer: Some(signer), account: Some(account) };
    let events = seq![e0] + later;
    let dropped = TaskPhase::<S>::Dropped(EnrichError::PolicyViolation);
    assert(events[0] == e0);
    assert(events.drop_first() =~= later);
    assert(task_step_spec(TaskPhase::Received(request), cap, e0) == dropped);
    lemma_dropped_is_terminal(dropped, cap, later);
}

/// A request for which the signer pool has no available identity is never
/// published: its task is dropped with ResourceUnavailable on the snapshot,
/// whatever the account tracker answered, and stays dropped.
pub proof fn lemma_no_signer_drops<S>(
    request: RoutingRequest<S>,
    account: Option<AccountEntry>,
    cap: u64,
    later: Seq<TaskEvent>,
)
    ensures
        ({
            let events = seq![TaskEvent::Resources { signer: None, account }] + later;
            &&& task_run_spec(TaskPhase::Received(request), cap, events)
                == TaskPhase::<S>::Dropped(EnrichError::ResourceUnavailable)
            &&& publish_count(TaskPhase::Received(request), cap, events) == 0
        }),
{
    let e0 = TaskEvent::Resources { signer: None, account };
    let events = seq![e0] + later;
    let dropped = TaskPhase::<S>::Dropped(EnrichError::ResourceUnavailable);
    assert(events[0] == e0);
    assert(events.drop_first() =~= later);
    assert(task_step_spec(TaskPhase::Received(request), cap, e0) == dropped);
    lemma_dropped_is_terminal(dropped, cap, later);
}

} // verus!
