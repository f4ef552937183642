//! The composition actor's dispatch decision: what one poll of the bus makes
//! the actor do. Routing-stage messages fan out into enrichment tasks; every
//! other message is ignored; a receive error is logged and the loop goes on;
//! only a closed bus ends the loop.
use vstd::prelude::*;
use crate::types::{EstimateRequest, RoutingRequest};

verus! {

/// One pipeline-stage message on the bus: the routing variant this actor
/// consumes, the estimate variant it emits, or a stage it does not handle.
#[derive(Clone, PartialEq, Eq, Debug)]
pub enum ComposeMessage<S> {
    Route(RoutingRequest<S>),
    Estimate(EstimateRequest<S>),
    OtherStage,
}

/// What one poll of the bus yielded: a message, a lag (the subscriber fell
/// behind and `missed` messages were dropped for it), or a closed bus.
#[derive(Clone, PartialEq, Eq, Debug)]
pub enum BusPoll<S> {
    Message(ComposeMessage<S>),
    Lagged(u64),
    Closed,
}

/// What the dispatch loop does next: spawn an enrichment task for a routing
/// request, ignore the message, log a receive error and continue, or shut
/// down because the bus is closed.
#[derive(Clone, PartialEq, Eq, Debug)]
pub enum DispatchAction<S> {
    Spawn(RoutingRequest<S>),
    Ignore,
    LogAndContinue,
    Shutdown,
}

/// The dispatch decision for one poll of the bus.
pub open spec fn dispatch_spec<S>(poll: BusPoll<S>) -> DispatchAction<S> {
    match poll {
        BusPoll::Message(ComposeMessage::Route(request)) => DispatchAction::Spawn(request),
        BusPoll::Message(_) => DispatchAction::Ignore,
        BusPoll::Lagged(_) => DispatchAction::LogAndContinue,
        BusPoll::Closed => DispatchAction::Shutdown,
    }
}

/// Decide what one poll of the bus makes the actor do: exactly the
/// routing-stage messages spawn an enrichment task, carrying their request
/// unchanged; any other message is ignored; a lagged receive is logged and
/// the loop continues; only a closed bus shuts the loop down.
pub fn dispatch<S>(poll: BusPoll<S>) -> (action: DispatchAction<S>)
    ensures
        action == dispatch_spec(poll),
        action matches DispatchAction::Spawn(request)
            ==> poll == BusPoll::Message(ComposeMessage::Route(request)),
        poll matches BusPoll::Message(ComposeMessage::Route(r))
            ==> action == DispatchAction::Spawn(r),
        action is Shutdown <==> poll is Closed,
        action is LogAndContinue <==> poll is Lagged,
{
    match poll {
        BusPoll::Message(message) => match message {
            ComposeMessage::Route(request) => DispatchAction::Spawn(request),
            _ => DispatchAction::Ignore,
        },
        BusPoll::Lagged(_) => DispatchAction::LogAndContinue,
        BusPoll::Closed => DispatchAction::Shutdown,
    }
}

/// A single receive failure never ends the dispatch loop: shutdown comes only
/// from a closed bus.
pub proof fn lemma_lag_never_stops<S>(missed: u64)
    ensures
        dispatch_spec::<S>(BusPoll::Lagged(missed)) == DispatchAction::<S>::LogAndContinue,
{
}

} // verus!
