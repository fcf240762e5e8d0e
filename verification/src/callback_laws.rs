//! What holds of the step that the chain calls back for, as it is run: one pending action after
//! another, each with what came of it.
use std::sync::Arc;
use vstd::prelude::*;

use crate::block::{PubsubMessage, SignedBeaconBlock, SignedBlobSidecar};
use crate::block_laws::{announces, in_list, lemma_announcement};
use crate::hash::Hash256;
use crate::outcome::{BlockError, BroadcastValidation};
use crate::publish::PublishRequest;
use crate::publish_fn::{PublishFn, PublishFnAction, PublishFnEvent, PublishFnStage};
use crate::publish_laws::{
    an_equivocating_block_is_not_broadcast, callback_run, callback_sent,
    the_callback_broadcasts_what_has_not_been_sent,
};

verus! {

/// The two errors are the same, with the same text if they have any.
pub open spec fn same_error(a: BlockError, b: BlockError) -> bool {
    match (a, b) {
        (BlockError::UnableToPublish, BlockError::UnableToPublish) => true,
        (BlockError::Slashable, BlockError::Slashable) => true,
        (BlockError::BlockIsAlreadyKnown, BlockError::BlockIsAlreadyKnown) => true,
        (BlockError::Other(x), BlockError::Other(y)) => x@ == y@,
        _ => false,
    }
}

/// The two stages are the same, with the same text if they have any.
pub open spec fn same_callback_stage(a: PublishFnStage, b: PublishFnStage) -> bool {
    match (a, b) {
        (PublishFnStage::CheckEquivocation, PublishFnStage::CheckEquivocation) => true,
        (PublishFnStage::Broadcast(x), PublishFnStage::Broadcast(y)) => x == y,
        (PublishFnStage::Finished(Ok(_)), PublishFnStage::Finished(Ok(_))) => true,
        (PublishFnStage::Finished(Err(x)), PublishFnStage::Finished(Err(y))) => same_error(x, y),
        _ => false,
    }
}

/// The event is a report on the action.
pub open spec fn reports_on<B, S>(event: PublishFnEvent, action: PublishFnAction<B, S>) -> bool {
    match event {
        PublishFnEvent::EquivocationChecked(_) => action is CheckEquivocation,
        PublishFnEvent::Sent => action is Send,
        PublishFnEvent::SendFailed => action is Send,
    }
}

/// What a new step does first depends on the validation alone: with gossip validation nothing, with
/// consensus validation it announces the block, and where equivocation counts it has that checked.
pub proof fn a_new_step_does_what_the_validation_leaves_to_it<B, S>(
    block: Arc<SignedBeaconBlock<B>>,
    blobs: Option<Arc<Vec<SignedBlobSidecar<S>>>>,
    block_root: Hash256,
    validation_level: BroadcastValidation,
    step: PublishFn<B, S>,
    action: PublishFnAction<B, S>,
    result: Option<Result<(), BlockError>>,
)
    requires
        call_ensures(
            PublishFn::<B, S>::new,
            (block, blobs, block_root, validation_level),
            step,
        ),
        call_ensures(PublishFn::<B, S>::pending, (&step,), action),
        call_ensures(PublishFn::<B, S>::into_result, (step,), result),
    ensures
        step.block == block,
        step.blobs == blobs,
        step.block_root == block_root,
        match validation_level {
            BroadcastValidation::Gossip => action is Return && (result matches Some(Ok(_))),
            BroadcastValidation::Consensus => result is None && match action {
                PublishFnAction::Send(PubsubMessage::BeaconBlock(sent)) => sent == block,
                _ => false,
            },
            BroadcastValidation::ConsensusAndEquivocation => result is None && match action {
                PublishFnAction::CheckEquivocation(checked, root) => checked == block && root
                    == block_root,
                _ => false,
            },
        },
{
}

/// What a step does next is what its stage says.
pub proof fn a_step_does_what_its_stage_says<B, S>(
    step: PublishFn<B, S>,
    messages: Seq<PubsubMessage<B, S>>,
    action: PublishFnAction<B, S>,
    result: Option<Result<(), BlockError>>,
)
    requires
        announces(messages, *step.block, in_list(step.blobs)),
        call_ensures(PublishFn::<B, S>::pending, (&step,), action),
        call_ensures(PublishFn::<B, S>::into_result, (step,), result),
    ensures
        match step.stage {
            PublishFnStage::CheckEquivocation => result is None && match action {
                PublishFnAction::CheckEquivocation(block, root) => block == step.block && root
                    == step.block_root,
                _ => false,
            },
            PublishFnStage::Broadcast(n) => result is None && match action {
                PublishFnAction::Send(message) => message == messages[n as int],
                _ => false,
            },
            PublishFnStage::Finished(outcome) => action is Return && result == Some(outcome),
        },
{
    lemma_announcement(messages, step.block, step.blobs);
}

/// How a step moves on: it broadcasts once no equivocation is found, sends message after message,
/// succeeds with the last, and fails with what went wrong. A report on anything but the pending
/// action changes nothing.
pub proof fn a_step_moves_on_by_what_is_reported<B, S>(
    step: PublishFn<B, S>,
    messages: Seq<PubsubMessage<B, S>>,
    action: PublishFnAction<B, S>,
    event: PublishFnEvent,
    next: PublishFn<B, S>,
)
    requires
        announces(messages, *step.block, in_list(step.blobs)),
        step.stage matches PublishFnStage::Broadcast(n) ==> n < messages.len(),
        call_ensures(PublishFn::<B, S>::pending, (&step,), action),
        call_ensures(PublishFn::<B, S>::step, (step, event), next),
    ensures
        next.block == step.block,
        next.blobs == step.blobs,
        next.block_root == step.block_root,
        !reports_on(event, action) ==> same_callback_stage(next.stage, step.stage),
        reports_on(event, action) ==> match event {
            PublishFnEvent::EquivocationChecked(Ok(equivocates)) => if equivocates {
                next.stage matches PublishFnStage::Finished(Err(error)) && error is Slashable
            } else {
                next.stage matches PublishFnStage::Broadcast(n) && n == 0
            },
            PublishFnEvent::EquivocationChecked(Err(found)) => {
                next.stage matches PublishFnStage::Finished(Err(error)) && same_error(error, found)
            },
            PublishFnEvent::Sent => {
                &&& step.stage matches PublishFnStage::Broadcast(n)
                &&& if n + 1 < messages.len() {
                    next.stage matches PublishFnStage::Broadcast(m) && m == n + 1
                } else {
                    next.stage matches PublishFnStage::Finished(Ok(_))
                }
            },
            PublishFnEvent::SendFailed => {
                next.stage matches PublishFnStage::Finished(Err(error)) && error is UnableToPublish
            },
        },
{
    lemma_announcement(messages, step.block, step.blobs);
}

/// The step is run: each event is a report after the action that was pending.
pub open spec fn step_goes<B, S>(
    steps: Seq<PublishFn<B, S>>,
    actions: Seq<PublishFnAction<B, S>>,
    events: Seq<PublishFnEvent>,
) -> bool {
    &&& steps.len() == events.len() + 1
    &&& actions.len() == events.len()
    &&& forall|i: int|
        #![trigger events[i]]
        0 <= i < events.len() ==> {
            &&& call_ensures(PublishFn::<B, S>::pending, (&steps[i],), actions[i])
            &&& call_ensures(PublishFn::<B, S>::step, (steps[i], events[i]), steps[i + 1])
        }
}

/// The messages that the network took: those of the actions after which it said so.
pub open spec fn step_took<B, S>(
    actions: Seq<PublishFnAction<B, S>>,
    events: Seq<PublishFnEvent>,
) -> Seq<PubsubMessage<B, S>>
    decreases events.len(),
{
    if events.len() == 0 {
        Seq::empty()
    } else {
        let earlier = step_took(actions.drop_last(), events.drop_last());
        match (actions.last(), events.last()) {
            (PublishFnAction::Send(message), PublishFnEvent::Sent) => earlier.push(message),
            _ => earlier,
        }
    }
}

/// The events without their texts' representation.
pub(crate) open spec fn seen(events: Seq<PublishFnEvent>) -> Seq<PublishFnEvent<Seq<char>>> {
    events.map_values(|event: PublishFnEvent| event@)
}

/// A step that is run goes through the stages that its events lead to.
pub(crate) proof fn lemma_step_goes<B, S>(
    request: PublishRequest<B, S>,
    steps: Seq<PublishFn<B, S>>,
    actions: Seq<PublishFnAction<B, S>>,
    events: Seq<PublishFnEvent>,
    n: int,
)
    requires
        step_goes(steps, actions, events),
        steps[0].block == request.block,
        steps[0].blobs == request.blobs,
        steps[0].stage@ == crate::publish_fn::first_stage(request.validation_level),
        0 <= n <= events.len(),
    ensures
        steps[n].block == request.block,
        steps[n].blobs == request.blobs,
        steps[n].block_root == steps[0].block_root,
        steps[n].stage@ == callback_run(request, seen(events.take(n))),
        step_took(actions.take(n), events.take(n)) == callback_sent(request, seen(events.take(n))),
    decreases n,
{
    if n > 0 {
        lemma_step_goes(request, steps, actions, events, n - 1);
        let event = events[n - 1];
        assert(steps[n - 1 + 1] == steps[n]);
        assert(events.take(n).drop_last() =~= events.take(n - 1));
        assert(actions.take(n).drop_last() =~= actions.take(n - 1));
        assert(seen(events.take(n)).drop_last() =~= seen(events.take(n - 1)));
        assert(seen(events.take(n)).last() == event@);
        assert(actions.take(n).last() == actions[n - 1]);
    }
}

/// From a new step on, whatever is reported: nothing is sent but the block's messages, in order. With
/// gossip validation nothing is left to send. Otherwise the step succeeds only when all of them have
/// been sent, and where equivocation counts nothing is sent before it has been ruled out.
pub proof fn a_step_that_succeeds_has_left_nothing_unsent<B, S>(
    block: Arc<SignedBeaconBlock<B>>,
    blobs: Option<Arc<Vec<SignedBlobSidecar<S>>>>,
    block_root: Hash256,
    validation_level: BroadcastValidation,
    messages: Seq<PubsubMessage<B, S>>,
    steps: Seq<PublishFn<B, S>>,
    actions: Seq<PublishFnAction<B, S>>,
    events: Seq<PublishFnEvent>,
    result: Option<Result<(), BlockError>>,
)
    requires
        announces(messages, *block, in_list(blobs)),
        step_goes(steps, actions, events),
        call_ensures(
            PublishFn::<B, S>::new,
            (block, blobs, block_root, validation_level),
            steps[0],
        ),
        call_ensures(PublishFn::<B, S>::into_result, (steps.last(),), result),
    ensures
        step_took(actions, events).is_prefix_of(messages),
        validation_level is Gossip ==> {
            &&& step_took(actions, events).len() == 0
            &&& result matches Some(Ok(_))
        },
        validation_level !is Gossip && (result matches Some(Ok(_))) ==> step_took(actions, events)
            == messages,
        validation_level is ConsensusAndEquivocation && ((result matches Some(Ok(_))) || step_took(
            actions,
            events,
        ).len() > 0) ==> exists|i: int|
            0 <= i < events.len() && (#[trigger] events[i] matches PublishFnEvent::EquivocationChecked(
                Ok(equivocates),
            ) && !equivocates),
{
    let request = PublishRequest {
        block_root: None,
        block,
        blobs,
        is_locally_built_block: false,
        validation_level,
        seen_timestamp: 0,
    };
    lemma_announcement(messages, block, blobs);
    let n: int = events.len() as int;
    lemma_step_goes(request, steps, actions, events, n);
    assert(events.take(n) =~= events);
    assert(actions.take(n) =~= actions);
    the_callback_broadcasts_what_has_not_been_sent(request, seen(events));
    if validation_level is ConsensusAndEquivocation {
        an_equivocating_block_is_not_broadcast(request, seen(events));
        if seen(events).contains(PublishFnEvent::EquivocationChecked(Ok(false))) {
            let i = choose|i: int|
                0 <= i < seen(events).len() && seen(events)[i]
                    == PublishFnEvent::<Seq<char>>::EquivocationChecked(Ok(false));
            assert(seen(events)[i] == events[i]@);
        }
    }
}

} // verus!
