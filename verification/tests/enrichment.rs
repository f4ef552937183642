use swap_router::dispatch::{dispatch, BusPoll, ComposeMessage, DispatchAction};
use swap_router::enrich::{enrich, task_step, TaskEvent, TaskPhase};
use swap_router::fee::{default_priority_fee_cap, gas_limit, priority_fee};
use swap_router::types::{
    AccountEntry, EnrichError, EthAddress, RoutingRequest, SigningIdentity, TxId, WeiAmount,
};

fn request(base_fee: u64, pre_gas: u64) -> RoutingRequest<u64> {
    RoutingRequest {
        swap: 42,
        stuffing_tx_ids: vec![TxId { bytes: [3u8; 32] }],
        pre_estimate_gas: pre_gas,
        next_block_base_fee: base_fee,
    }
}

fn signer() -> SigningIdentity {
    SigningIdentity { address: EthAddress { bytes: [1u8; 20] } }
}

fn account() -> AccountEntry {
    AccountEntry { nonce: 5, balance: WeiAmount::from_u128(1_000_000_000_000_000_000) }
}

#[test]
fn cap_is_nine_gwei() {
    assert_eq!(default_priority_fee_cap(), 9_000_000_000);
}

#[test]
fn priority_fee_is_min_of_base_fee_and_cap() {
    assert_eq!(priority_fee(20_000_000_000, 9_000_000_000), 9_000_000_000);
    assert_eq!(priority_fee(5_000_000_000, 9_000_000_000), 5_000_000_000);
    assert_eq!(priority_fee(9_000_000_000, 9_000_000_000), 9_000_000_000);
    assert_eq!(priority_fee(1, 9_000_000_000), 1);
}

#[test]
fn gas_limit_doubles_the_pre_estimate() {
    assert_eq!(gas_limit(100000), 200000);
    assert_eq!(gas_limit(0), 0);
    assert_eq!(gas_limit(u64::MAX / 2), u64::MAX - 1);
}

#[test]
fn enrich_success_with_capped_fee() {
    let req = request(20_000_000_000, 100000);
    let e = enrich(req.clone(), Some(signer()), Some(account()), default_priority_fee_cap())
        .expect("enrichment succeeds");
    assert_eq!(e.gas, 200000);
    assert_eq!(e.priority_gas_fee, 9_000_000_000);
    assert_eq!(e.nonce, 5);
    assert_eq!(e.eth_balance, WeiAmount::from_u128(1_000_000_000_000_000_000));
    assert_eq!(e.value, WeiAmount { hi: 0, lo: 0 });
    assert_eq!(e.signer, signer());
    assert_eq!(e.routing, req);
}

#[test]
fn enrich_success_with_uncapped_fee() {
    let req = request(5_000_000_000, 100000);
    let e = enrich(req, Some(signer()), Some(account()), default_priority_fee_cap())
        .expect("enrichment succeeds");
    assert_eq!(e.priority_gas_fee, 5_000_000_000);
    assert_eq!(e.gas, 200000);
    assert_eq!(e.value, WeiAmount { hi: 0, lo: 0 });
}

#[test]
fn enrich_rejects_zero_base_fee() {
    let req = request(0, 100000);
    let r = enrich(req, Some(signer()), Some(account()), default_priority_fee_cap());
    assert_eq!(r, Err(EnrichError::PolicyViolation));
}

#[test]
fn enrich_rejects_empty_signer_pool() {
    let req = request(20_000_000_000, 100000);
    let r = enrich(req, None, Some(account()), default_priority_fee_cap());
    assert_eq!(r, Err(EnrichError::ResourceUnavailable));
}

#[test]
fn enrich_rejects_missing_account_entry() {
    let req = request(20_000_000_000, 100000);
    let r = enrich(req, Some(signer()), None, default_priority_fee_cap());
    assert_eq!(r, Err(EnrichError::DataIntegrityGap));
}

#[test]
fn no_signer_outranks_zero_base_fee() {
    let req = request(0, 100000);
    let r = enrich(req, None, Some(account()), default_priority_fee_cap());
    assert_eq!(r, Err(EnrichError::ResourceUnavailable));
}

#[test]
fn task_lifecycle_published_once() {
    let cap = default_priority_fee_cap();
    let phase = TaskPhase::Received(request(20_000_000_000, 100000));
    let resources = TaskEvent::Resources { signer: Some(signer()), account: Some(account()) };
    let phase = task_step(phase, cap, resources);
    let estimate = match &phase {
        TaskPhase::Enriched(e) => e.clone(),
        other => panic!("expected the enriched phase, got {:?}", other),
    };
    assert_eq!(estimate.priority_gas_fee, 9_000_000_000);
    let phase = task_step(phase, cap, TaskEvent::PublishResult { accepted: true });
    assert_eq!(phase, TaskPhase::Published(estimate.clone()));
    // Published is terminal: further events change nothing.
    let phase = task_step(phase, cap, TaskEvent::PublishResult { accepted: false });
    assert_eq!(phase, TaskPhase::Published(estimate));
}

#[test]
fn task_drops_on_publish_failure() {
    let cap = default_priority_fee_cap();
    let phase = TaskPhase::Received(request(20_000_000_000, 100000));
    let resources = TaskEvent::Resources { signer: Some(signer()), account: Some(account()) };
    let phase = task_step(phase, cap, resources);
    let phase = task_step(phase, cap, TaskEvent::PublishResult { accepted: false });
    assert_eq!(phase, TaskPhase::<u64>::Dropped(EnrichError::TransportFailure));
}

#[test]
fn task_drops_on_zero_base_fee() {
    let cap = default_priority_fee_cap();
    let phase = TaskPhase::Received(request(0, 100000));
    let resources = TaskEvent::Resources { signer: Some(signer()), account: Some(account()) };
    let phase = task_step(phase, cap, resources);
    assert_eq!(phase, TaskPhase::<u64>::Dropped(EnrichError::PolicyViolation));
    // Dropped is terminal.
    let phase = task_step(phase, cap, TaskEvent::PublishResult { accepted: true });
    assert_eq!(phase, TaskPhase::<u64>::Dropped(EnrichError::PolicyViolation));
}

#[test]
fn task_drops_on_empty_signer_pool() {
    let cap = default_priority_fee_cap();
    let phase = TaskPhase::Received(request(20_000_000_000, 100000));
    let resources = TaskEvent::Resources { signer: None, account: Some(account()) };
    let phase = task_step(phase, cap, resources);
    assert_eq!(phase, TaskPhase::<u64>::Dropped(EnrichError::ResourceUnavailable));
}

#[test]
fn task_ignores_events_out_of_order() {
    let cap = default_priority_fee_cap();
    let req = request(20_000_000_000, 100000);
    let phase = TaskPhase::Received(req.clone());
    let phase = task_step(phase, cap, TaskEvent::PublishResult { accepted: true });
    assert_eq!(phase, TaskPhase::Received(req));
}

#[test]
fn dispatch_spawns_on_routing_messages() {
    let req = request(20_000_000_000, 100000);
    let action = dispatch(BusPoll::Message(ComposeMessage::Route(req.clone())));
    assert_eq!(action, DispatchAction::Spawn(req));
}

#[test]
fn dispatch_ignores_other_messages() {
    let req = request(20_000_000_000, 100000);
    let estimate = enrich(req, Some(signer()), Some(account()), default_priority_fee_cap())
        .expect("enrichment succeeds");
    let action = dispatch(BusPoll::Message(ComposeMessage::Estimate(estimate)));
    assert_eq!(action, DispatchAction::Ignore);
    let action = dispatch(BusPoll::<u64>::Message(ComposeMessage::OtherStage));
    assert_eq!(action, DispatchAction::Ignore);
}

#[test]
fn dispatch_survives_lag_and_stops_on_close() {
    assert_eq!(dispatch(BusPoll::<u64>::Lagged(17)), DispatchAction::LogAndContinue);
    assert_eq!(dispatch(BusPoll::<u64>::Closed), DispatchAction::Shutdown);
}
