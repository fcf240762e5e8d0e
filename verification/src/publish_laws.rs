//! What holds of publishing a block from beginning to end, whatever the node reports on the way.
use std::sync::Arc;
use vstd::prelude::*;

use crate::block::{
    pubsub_messages, ForkName, PubsubMessage, SignedBeaconBlock, SignedBlobSidecar,
};
use crate::hash::Hash256;
use crate::outcome::{AvailabilityProcessingStatus, BlockError, BroadcastValidation, Rejection};
use crate::publish::{next_stage, PublishEvent, PublishRequest, PublishStage};
use crate::publish_fn::{PublishFnEvent, PublishFnStage};

verus! {

/// Events as they are reported to a publication.
pub type Events = Seq<PublishEvent<Seq<char>>>;

/// Events as they are reported to the step that the chain calls back for.
pub type CallbackEvents = Seq<PublishFnEvent<Seq<char>>>;

/// The stage of a publication after some events, from its beginning.
pub open spec fn run<B, S>(request: PublishRequest<B, S>, events: Events) -> PublishStage<Seq<char>>
    decreases events.len(),
{
    if events.len() == 0 {
        PublishStage::VerifyGossip
    } else {
        next_stage(request, run(request, events.drop_last()), events.last())
    }
}

/// The messages that the network has taken from a publication, before the chain calls back.
pub open spec fn sent<B, S>(request: PublishRequest<B, S>, events: Events) -> Seq<
    PubsubMessage<B, S>,
>
    decreases events.len(),
{
    if events.len() == 0 {
        Seq::empty()
    } else {
        let earlier = sent(request, events.drop_last());
        match (run(request, events.drop_last()), events.last()) {
            (PublishStage::Broadcast(_, n), PublishEvent::Sent) => earlier.push(
                request.messages()[n as int],
            ),
            _ => earlier,
        }
    }
}

/// The stage of the step that the chain calls back for after some events, from its beginning.
pub open spec fn callback_run<B, S>(
    request: PublishRequest<B, S>,
    events: CallbackEvents,
) -> PublishFnStage<Seq<char>>
    decreases events.len(),
{
    if events.len() == 0 {
        crate::publish_fn::first_stage(request.validation_level)
    } else {
        crate::publish_fn::next_stage(
            request.messages().len(),
            callback_run(request, events.drop_last()),
            events.last(),
        )
    }
}

/// The messages that the network has taken from the step that the chain calls back for.
pub open spec fn callback_sent<B, S>(
    request: PublishRequest<B, S>,
    events: CallbackEvents,
) -> Seq<PubsubMessage<B, S>>
    decreases events.len(),
{
    if events.len() == 0 {
        Seq::empty()
    } else {
        let earlier = callback_sent(request, events.drop_last());
        match (callback_run(request, events.drop_last()), events.last()) {
            (PublishFnStage::Broadcast(n), PublishFnEvent::Sent) => earlier.push(
                request.messages()[n as int],
            ),
            _ => earlier,
        }
    }
}

/// The messages of a block can be counted.
proof fn lemma_messages_can_be_counted<B, S>(request: PublishRequest<B, S>)
    ensures
        1 <= request.messages().len() <= 1 + usize::MAX,
{
    if let Some(list) = request.blobs {
        assert(list.len() == list@.len());
    }
}

/// A block is announced by itself first, then by its blobs in their order, each with its place.
/// There is an announcement for each blob of a block of the fork that has blobs, and for none of
/// any other.
pub proof fn a_block_is_announced_before_its_blobs<B, S>(
    block: Arc<SignedBeaconBlock<B>>,
    blobs: Option<Seq<SignedBlobSidecar<S>>>,
)
    ensures
        pubsub_messages(block, blobs)[0] == PubsubMessage::<B, S>::BeaconBlock(block),
        block.fork_name != ForkName::Deneb || blobs is None ==> pubsub_messages(block, blobs).len()
            == 1,
        block.fork_name == ForkName::Deneb && blobs is Some ==> {
            &&& pubsub_messages(block, blobs).len() == 1 + blobs->0.len()
            &&& forall|i: int|
                0 <= i < blobs->0.len() ==> #[trigger] pubsub_messages(block, blobs)[i + 1]
                    == PubsubMessage::<B, S>::BlobSidecar(Box::new((i as u64, blobs->0[i])))
        },
{
}

/// With gossip validation, a block that passes the gossip checks is broadcast in full, in order and
/// without repetition, before the chain gets to process it; before it passes, nothing is sent.
pub proof fn gossip_validation_broadcasts_before_processing<B, S>(
    request: PublishRequest<B, S>,
    events: Events,
)
    requires
        request.validation_level == BroadcastValidation::Gossip,
    ensures
        match run(request, events) {
            PublishStage::VerifyGossip => sent(request, events) == Seq::<
                PubsubMessage<B, S>,
            >::empty(),
            PublishStage::Broadcast(_, n) => n < request.messages().len() && sent(request, events)
                == request.messages().take(n as int),
            PublishStage::Finished(Err(_)) => sent(request, events).is_prefix_of(
                request.messages(),
            ),
            _ => sent(request, events) == request.messages(),
        },
    decreases events.len(),
{
    lemma_messages_can_be_counted(request);
    if events.len() > 0 {
        gossip_validation_broadcasts_before_processing(request, events.drop_last());
        let all = request.messages();
        if let PublishStage::Broadcast(_, n) = run(request, events.drop_last()) {
            assert(all.take(n as int).push(all[n as int]) =~= all.take(n + 1));
            assert(all.take(all.len() as int) =~= all);
        }
    } else {
        assert(request.messages().take(0) =~= Seq::<PubsubMessage<B, S>>::empty());
    }
}

/// With stricter validation, nothing is sent unless the chain calls back for it.
pub proof fn stricter_validation_leaves_the_broadcast_to_the_chain<B, S>(
    request: PublishRequest<B, S>,
    events: Events,
)
    requires
        request.validation_level != BroadcastValidation::Gossip,
    ensures
        sent(request, events) == Seq::<PubsubMessage<B, S>>::empty(),
        run(request, events) !is Broadcast,
    decreases events.len(),
{
    if events.len() > 0 {
        stricter_validation_leaves_the_broadcast_to_the_chain(request, events.drop_last());
    }
}

/// When the chain calls back, a block is broadcast in full, in order and without repetition, if the
/// step succeeds; unless it has been broadcast already, when nothing is sent.
pub proof fn the_callback_broadcasts_what_has_not_been_sent<B, S>(
    request: PublishRequest<B, S>,
    events: CallbackEvents,
)
    ensures
        request.validation_level == BroadcastValidation::Gossip ==> {
            &&& callback_sent(request, events) == Seq::<PubsubMessage<B, S>>::empty()
            &&& callback_run(request, events) == PublishFnStage::<Seq<char>>::Finished(Ok(()))
        },
        request.validation_level != BroadcastValidation::Gossip ==> match callback_run(
            request,
            events,
        ) {
            PublishFnStage::CheckEquivocation => callback_sent(request, events) == Seq::<
                PubsubMessage<B, S>,
            >::empty(),
            PublishFnStage::Broadcast(n) => n < request.messages().len() && callback_sent(
                request,
                events,
            ) == request.messages().take(n as int),
            PublishFnStage::Finished(Ok(_)) => callback_sent(request, events)
                == request.messages(),
            PublishFnStage::Finished(Err(_)) => callback_sent(request, events).is_prefix_of(
                request.messages(),
            ),
        },
    decreases events.len(),
{
    lemma_messages_can_be_counted(request);
    if events.len() > 0 {
        the_callback_broadcasts_what_has_not_been_sent(request, events.drop_last());
        let all = request.messages();
        if let PublishFnStage::Broadcast(n) = callback_run(request, events.drop_last()) {
            assert(all.take(n as int).push(all[n as int]) =~= all.take(n + 1));
            assert(all.take(all.len() as int) =~= all);
        }
    } else {
        assert(request.messages().take(0) =~= Seq::<PubsubMessage<B, S>>::empty());
    }
}

/// Whatever validation is asked for: once the chain has called back successfully, every message of
/// the block has been sent exactly once, and in order.
pub proof fn a_block_is_broadcast_exactly_once<B, S>(
    request: PublishRequest<B, S>,
    events: Events,
    callback_events: CallbackEvents,
)
    requires
        run(request, events) is ProcessBlock,
        callback_run(request, callback_events) == PublishFnStage::<Seq<char>>::Finished(Ok(())),
    ensures
        sent(request, events) + callback_sent(request, callback_events) == request.messages(),
{
    the_callback_broadcasts_what_has_not_been_sent(request, callback_events);
    if request.validation_level == BroadcastValidation::Gossip {
        gossip_validation_broadcasts_before_processing(request, events);
    } else {
        stricter_validation_leaves_the_broadcast_to_the_chain(request, events);
    }
    assert(sent(request, events) + callback_sent(request, callback_events) =~= request.messages());
}

/// Where equivocation is checked, nothing is sent unless the check has found none.
pub proof fn an_equivocating_block_is_not_broadcast<B, S>(
    request: PublishRequest<B, S>,
    events: CallbackEvents,
)
    requires
        request.validation_level == BroadcastValidation::ConsensusAndEquivocation,
    ensures
        callback_sent(request, events).len() > 0 ==> events.contains(
            PublishFnEvent::EquivocationChecked(Ok(false)),
        ),
        callback_run(request, events) is Broadcast ==> events.contains(
            PublishFnEvent::EquivocationChecked(Ok(false)),
        ),
        callback_run(request, events) == PublishFnStage::<Seq<char>>::Finished(Ok(()))
            ==> events.contains(PublishFnEvent::EquivocationChecked(Ok(false))),
    decreases events.len(),
{
    if events.len() > 0 {
        let earlier = events.drop_last();
        an_equivocating_block_is_not_broadcast(request, earlier);
        let clear = PublishFnEvent::EquivocationChecked(Ok(false));
        if earlier.contains(clear) {
            let i = choose|i: int| 0 <= i < earlier.len() && earlier[i] == clear;
            assert(events[i] == clear);
        }
        if events.last() == clear {
            assert(events[events.len() - 1] == clear);
        }
    }
}

/// A proposer's second block for a slot ends the step with an error, whatever is reported
/// afterwards, and the request that brought it is answered as a bad one.
pub proof fn equivocation_is_answered_as_a_bad_request<B, S>(
    request: PublishRequest<B, S>,
    events: CallbackEvents,
    root: Hash256,
)
    requires
        request.validation_level == BroadcastValidation::ConsensusAndEquivocation,
        events.len() > 0,
        events[0] == PublishFnEvent::<Seq<char>>::EquivocationChecked(Ok(true)),
    ensures
        callback_run(request, events) == PublishFnStage::Finished(
            Err::<(), BlockError<Seq<char>>>(BlockError::Slashable),
        ),
        callback_sent(request, events) == Seq::<PubsubMessage<B, S>>::empty(),
        next_stage(
            request,
            PublishStage::ProcessBlock(root),
            PublishEvent::Processed(Err(BlockError::Slashable)),
        ) == PublishStage::Finished(
            Err::<(), Rejection<Seq<char>>>(
                Rejection::BadRequest("proposal for this slot and proposer has already been seen"@),
            ),
        ),
    decreases events.len(),
{
    reveal_with_fuel(callback_run, 2);
    reveal_with_fuel(callback_sent, 2);
    if events.len() > 1 {
        equivocation_is_answered_as_a_bad_request(request, events.drop_last(), root);
    }
}

/// A message that the network does not take is the server's fault, before the chain processes the
/// block as well as when it calls back.
pub proof fn a_failed_broadcast_is_answered_as_a_server_error<B, S>(
    request: PublishRequest<B, S>,
    root: Hash256,
    sent: u128,
)
    ensures
        next_stage(
            request,
            PublishStage::Broadcast(root, sent),
            PublishEvent::SendFailed,
        ) == PublishStage::Finished(
            Err::<(), Rejection<Seq<char>>>(Rejection::ServerError("unable to publish"@)),
        ),
        crate::publish_fn::next_stage(
            request.messages().len(),
            PublishFnStage::Broadcast(sent),
            PublishFnEvent::SendFailed,
        ) == PublishFnStage::Finished(
            Err::<(), BlockError<Seq<char>>>(BlockError::UnableToPublish),
        ),
        next_stage(
            request,
            PublishStage::ProcessBlock(root),
            PublishEvent::Processed(Err(BlockError::UnableToPublish)),
        ) == PublishStage::Finished(
            Err::<(), Rejection<Seq<char>>>(
                Rejection::ServerError("unable to publish to network channel"@),
            ),
        ),
{
}

/// A block that fails the gossip checks is not sent, and the request is answered as a bad one,
/// whatever is reported afterwards.
pub proof fn a_block_that_fails_the_gossip_checks_is_refused<B, S>(
    request: PublishRequest<B, S>,
    events: Events,
    reason: Seq<char>,
)
    requires
        events.len() > 0,
        events[0] == PublishEvent::<Seq<char>>::GossipRejected(reason),
    ensures
        run(request, events) == PublishStage::Finished(
            Err::<(), Rejection<Seq<char>>>(Rejection::BadRequest(reason)),
        ),
        sent(request, events) == Seq::<PubsubMessage<B, S>>::empty(),
    decreases events.len(),
{
    reveal_with_fuel(run, 2);
    reveal_with_fuel(sent, 2);
    if events.len() > 1 {
        a_block_that_fails_the_gossip_checks_is_refused(request, events.drop_last(), reason);
    }
}

/// The event reports that the chain has the block, because it imported it or had it already.
pub open spec fn reports_block_in_chain(event: PublishEvent<Seq<char>>) -> bool {
    match event {
        PublishEvent::Processed(Ok(AvailabilityProcessingStatus::Imported(_))) => true,
        PublishEvent::Processed(Err(BlockError::BlockIsAlreadyKnown)) => true,
        _ => false,
    }
}

/// A request succeeds only if the chain imported the block or had it already. Of an imported
/// block, the follow-up work starts only once it is imported, and lateness is logged only if it was
/// built locally.
pub proof fn success_means_that_the_chain_has_the_block<B, S>(
    request: PublishRequest<B, S>,
    events: Events,
)
    ensures
        match run(request, events) {
            PublishStage::Finished(Ok(_)) => exists|i: int|
                0 <= i < events.len() && reports_block_in_chain(#[trigger] events[i]),
            PublishStage::RegisterApiBlock(root) => events.contains(
                PublishEvent::Processed(Ok(AvailabilityProcessingStatus::Imported(root))),
            ),
            PublishStage::RecomputeHead(root) => events.contains(
                PublishEvent::Processed(Ok(AvailabilityProcessingStatus::Imported(root))),
            ),
            PublishStage::LogLateBlock(root) => request.is_locally_built_block && events.contains(
                PublishEvent::Processed(Ok(AvailabilityProcessingStatus::Imported(root))),
            ),
            _ => true,
        },
    decreases events.len(),
{
    if events.len() > 0 {
        let earlier = events.drop_last();
        success_means_that_the_chain_has_the_block(request, earlier);
        assert(forall|i: int| 0 <= i < earlier.len() ==> #[trigger] events[i] == earlier[i]);
        assert forall|event: PublishEvent<Seq<char>>| #[trigger]
            earlier.contains(event) implies events.contains(event) by {
            let i = choose|i: int| 0 <= i < earlier.len() && earlier[i] == event;
            assert(events[i] == event);
        }
        assert(events[events.len() - 1] == events.last());
        match run(request, earlier) {
            PublishStage::RecomputeHead(root) => {
                let imported = PublishEvent::<Seq<char>>::Processed(
                    Ok(AvailabilityProcessingStatus::Imported(root)),
                );
                let i = choose|i: int| 0 <= i < earlier.len() && earlier[i] == imported;
                assert(reports_block_in_chain(events[i]));
            },
            PublishStage::LogLateBlock(root) => {
                let imported = PublishEvent::<Seq<char>>::Processed(
                    Ok(AvailabilityProcessingStatus::Imported(root)),
                );
                let i = choose|i: int| 0 <= i < earlier.len() && earlier[i] == imported;
                assert(reports_block_in_chain(events[i]));
            },
            PublishStage::Finished(Ok(_)) => {
                let i = choose|i: int|
                    0 <= i < earlier.len() && reports_block_in_chain(#[trigger] earlier[i]);
                assert(reports_block_in_chain(events[i]));
            },
            _ => {},
        }
    }
}

/// The chain processes a block under the root that the caller gave, and if the caller gave none,
/// under the one that verification found.
pub proof fn the_root_is_the_callers_or_the_verified_one<B, S>(
    request: PublishRequest<B, S>,
    events: Events,
)
    ensures
        match run(request, events) {
            PublishStage::ProcessBlock(root) => request.block_root == Some(root)
                || request.block_root is None && events.contains(
                PublishEvent::GossipVerified(root),
            ),
            PublishStage::Broadcast(root, _) => request.block_root == Some(root)
                || request.block_root is None && events.contains(
                PublishEvent::GossipVerified(root),
            ),
            _ => true,
        },
    decreases events.len(),
{
    if events.len() > 0 {
        let earlier = events.drop_last();
        the_root_is_the_callers_or_the_verified_one(request, earlier);
        assert forall|event: PublishEvent<Seq<char>>| #[trigger]
            earlier.contains(event) implies events.contains(event) by {
            let i = choose|i: int| 0 <= i < earlier.len() && earlier[i] == event;
            assert(events[i] == event);
        }
        assert(events[events.len() - 1] == events.last());
    }
}

/// An answer is final: no later event changes it.
pub proof fn an_answer_is_final<B, S>(
    request: PublishRequest<B, S>,
    events: Events,
    later: Events,
)
    requires
        run(request, events) is Finished,
    ensures
        run(request, events + later) == run(request, events),
        sent(request, events + later) == sent(request, events),
    decreases later.len(),
{
    if later.len() == 0 {
        assert(events + later =~= events);
    } else {
        an_answer_is_final(request, events, later.drop_last());
        assert((events + later).drop_last() =~= events + later.drop_last());
        assert((events + later).last() == later.last());
    }
}

/// A block that the chain finds invalid has been broadcast if only gossip validation was asked for,
/// and the answer says so; with stricter validation the request is answered as a bad one.
pub proof fn an_invalid_block_is_answered_by_validation_level<B, S>(
    request: PublishRequest<B, S>,
    root: Hash256,
    reason: Seq<char>,
)
    ensures
        request.validation_level == BroadcastValidation::Gossip ==> next_stage(
            request,
            PublishStage::ProcessBlock(root),
            PublishEvent::Processed(Err(BlockError::Other(reason))),
        ) == PublishStage::Finished(
            Err::<(), Rejection<Seq<char>>>(Rejection::BroadcastWithoutImport(reason)),
        ),
        request.validation_level != BroadcastValidation::Gossip ==> next_stage(
            request,
            PublishStage::ProcessBlock(root),
            PublishEvent::Processed(Err(BlockError::Other(reason))),
        ) == PublishStage::Finished(
            Err::<(), Rejection<Seq<char>>>(Rejection::BadRequest("Invalid block: "@ + reason)),
        ),
{
}

/// How many more events a publication can take, at most, until the request is answered.
pub open spec fn events_left<B, S>(
    request: PublishRequest<B, S>,
    stage: PublishStage<Seq<char>>,
) -> int {
    match stage {
        PublishStage::VerifyGossip => request.messages().len() as int + 5,
        PublishStage::Broadcast(_, sent) => request.messages().len() - sent + 4,
        PublishStage::ProcessBlock(_) => 4,
        PublishStage::RegisterApiBlock(_) => 3,
        PublishStage::RecomputeHead(_) => 2,
        PublishStage::LogLateBlock(_) => 1,
        PublishStage::Finished(_) => 0,
    }
}

/// A publication comes to an end: each event that answers the pending action brings it nearer.
pub proof fn every_answered_action_makes_progress<B, S>(
    request: PublishRequest<B, S>,
    stage: PublishStage<Seq<char>>,
    event: PublishEvent<Seq<char>>,
)
    requires
        stage matches PublishStage::Broadcast(_, sent) ==> sent < request.messages().len(),
    ensures
        events_left(request, stage) >= 0,
        events_left(request, stage) == 0 <==> stage is Finished,
        next_stage(request, stage, event) != stage ==> 0 <= events_left(
            request,
            next_stage(request, stage, event),
        ) < events_left(request, stage),
{
    lemma_messages_can_be_counted(request);
}

} // verus!
