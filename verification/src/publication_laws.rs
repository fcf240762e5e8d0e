//! What holds of publishing a block as it is run: one pending action after another, each with what
//! came of it, and with the step that the chain was given to call back for.
use vstd::prelude::*;

use crate::block::{ProvenancedBlock, PubsubMessage, SignedBeaconBlock, SignedBlockContents};
use crate::block_laws::{announces, announces_contents, in_list, lemma_announcement};
use crate::callback_laws::{lemma_step_goes, step_goes, step_took};
use crate::hash::Hash256;
use crate::hash_laws::{ends_in_hash, lemma_full_text_spells_out};
use crate::outcome::{AvailabilityProcessingStatus, BlockError, BroadcastValidation, Rejection};
use crate::publish::{
    publish_block, PublishAction, PublishEvent, PublishRequest, PublishStage, PublishTask,
};
use crate::publish_fn::{PublishFn, PublishFnAction, PublishFnEvent};
use crate::publish_laws::{
    gossip_validation_broadcasts_before_processing, run, sent,
    stricter_validation_leaves_the_broadcast_to_the_chain,
    the_callback_broadcasts_what_has_not_been_sent,
};

verus! {

/// The two answers are the same, with the same text.
pub open spec fn same_answer(a: Rejection, b: Rejection) -> bool {
    match (a, b) {
        (Rejection::BadRequest(x), Rejection::BadRequest(y)) => x@ == y@,
        (Rejection::ServerError(x), Rejection::ServerError(y)) => x@ == y@,
        (Rejection::BroadcastWithoutImport(x), Rejection::BroadcastWithoutImport(y)) => x@ == y@,
        _ => false,
    }
}

/// The two stages are the same, with the same text if they have any.
pub open spec fn same_publish_stage(a: PublishStage, b: PublishStage) -> bool {
    match (a, b) {
        (PublishStage::VerifyGossip, PublishStage::VerifyGossip) => true,
        (PublishStage::Broadcast(r, x), PublishStage::Broadcast(s, y)) => r == s && x == y,
        (PublishStage::ProcessBlock(r), PublishStage::ProcessBlock(s)) => r == s,
        (PublishStage::RegisterApiBlock(r), PublishStage::RegisterApiBlock(s)) => r == s,
        (PublishStage::RecomputeHead(r), PublishStage::RecomputeHead(s)) => r == s,
        (PublishStage::LogLateBlock(r), PublishStage::LogLateBlock(s)) => r == s,
        (PublishStage::Finished(Ok(_)), PublishStage::Finished(Ok(_))) => true,
        (PublishStage::Finished(Err(x)), PublishStage::Finished(Err(y))) => same_answer(x, y),
        _ => false,
    }
}

/// The event is a report on the action.
pub open spec fn reports_on<B, S>(event: PublishEvent, action: PublishAction<B, S>) -> bool {
    match event {
        PublishEvent::GossipVerified(_) => action is VerifyGossip,
        PublishEvent::GossipRejected(_) => action is VerifyGossip,
        PublishEvent::Sent => action is Send,
        PublishEvent::SendFailed => action is Send,
        PublishEvent::Processed(_) => action is ProcessBlock,
        PublishEvent::Completed => action is RegisterApiBlock || action is RecomputeHead
            || action is LogLateBlock,
    }
}

/// The request asks for these contents to be published.
pub open spec fn asks_for<B, S>(
    request: PublishRequest<B, S>,
    contents: SignedBlockContents<SignedBeaconBlock<B>, S>,
) -> bool {
    match contents {
        SignedBlockContents::Block(block) => *request.block == block && request.blobs is None,
        SignedBlockContents::BlockAndBlobSidecars(block, blobs) => {
            &&& *request.block == block
            &&& request.blobs matches Some(list)
            &&& list@ == blobs@
        },
    }
}

/// A publication starts by verifying the block. It keeps what was submitted, by whom the block was
/// built, and what the caller said.
pub proof fn a_publication_starts_with_what_was_submitted<B, S>(
    block_root: Option<Hash256>,
    submitted: ProvenancedBlock<SignedBlockContents<SignedBeaconBlock<B>, S>>,
    validation_level: BroadcastValidation,
    seen_timestamp: u128,
    task: PublishTask<B, S>,
)
    requires
        call_ensures(
            publish_block::<B, S>,
            (block_root, submitted, validation_level, seen_timestamp),
            task,
        ),
    ensures
        task.stage is VerifyGossip,
        task.request.block_root == block_root,
        task.request.validation_level == validation_level,
        task.request.seen_timestamp == seen_timestamp,
        match submitted {
            ProvenancedBlock::Local(contents) => task.request.is_locally_built_block && asks_for(
                task.request,
                contents,
            ),
            ProvenancedBlock::Builder(contents) => !task.request.is_locally_built_block && asks_for(
                task.request,
                contents,
            ),
        },
{
}

/// What a publication does next is what its stage says. For verification the blobs lose their
/// signatures and nothing else.
pub proof fn a_publication_does_what_its_stage_says<B, S>(
    task: PublishTask<B, S>,
    messages: Seq<PubsubMessage<B, S>>,
    action: PublishAction<B, S>,
    result: Option<Result<(), Rejection>>,
)
    requires
        announces(messages, *task.request.block, in_list(task.request.blobs)),
        call_ensures(PublishTask::<B, S>::pending, (&task,), action),
        call_ensures(PublishTask::<B, S>::into_result, (task,), result),
    ensures
        task.stage matches PublishStage::Finished(outcome) ==> action is Return && result == Some(
            outcome,
        ),
        task.stage !is Finished ==> result is None,
        task.stage is VerifyGossip ==> match action {
            PublishAction::VerifyGossip(block, None) => block == task.request.block
                && task.request.blobs is None,
            PublishAction::VerifyGossip(block, Some(unsigned)) => {
                &&& block == task.request.block
                &&& task.request.blobs matches Some(signed)
                &&& unsigned@.len() == signed@.len()
                &&& forall|i: int|
                    0 <= i < unsigned@.len() ==> #[trigger] unsigned@[i] == signed@[i].message
            },
            _ => false,
        },
        task.stage matches PublishStage::Broadcast(_, n) ==> match action {
            PublishAction::Send(message) => message == messages[n as int],
            _ => false,
        },
        task.stage matches PublishStage::ProcessBlock(root) ==> match action {
            PublishAction::ProcessBlock(block_root, notify, step) => {
                &&& block_root == root
                &&& notify is Yes
                &&& step.block == task.request.block
                &&& step.blobs == task.request.blobs
                &&& step.block_root == root
            },
            _ => false,
        },
        task.stage matches PublishStage::RegisterApiBlock(root) ==> match action {
            PublishAction::RegisterApiBlock(seen, block, block_root) => {
                &&& seen == task.request.seen_timestamp
                &&& block == task.request.block
                &&& block_root == root
            },
            _ => false,
        },
        task.stage is RecomputeHead ==> action is RecomputeHead,
        task.stage matches PublishStage::LogLateBlock(root) ==> match action {
            PublishAction::LogLateBlock(seen, block, block_root, provenance) => {
                &&& seen == task.request.seen_timestamp
                &&& block == task.request.block
                &&& block_root == root
                &&& provenance is Local
            },
            _ => false,
        },
{
    lemma_announcement(messages, task.request.block, task.request.blobs);
    if task.stage is VerifyGossip {
        if let PublishAction::VerifyGossip(_, Some(unsigned)) = action {
            let signed = task.request.blobs->0;
            assert forall|i: int| 0 <= i < unsigned@.len() implies #[trigger] unsigned@[i]
                == signed@[i].message by {
                assert(signed@[i].message == unsigned@[i]);
            }
        }
    }
}

/// Whoever built the block: the step that the chain gets to call back for has nothing to do with
/// gossip validation, when the block has been broadcast, and everything to do otherwise. With
/// consensus validation it begins by announcing the block, and where equivocation counts by having
/// that checked.
pub proof fn the_chain_calls_back_for_what_has_not_been_done<B, S>(
    task: PublishTask<B, S>,
    root: Hash256,
    action: PublishAction<B, S>,
    step: PublishFn<B, S>,
    first: PublishFnAction<B, S>,
    result: Option<Result<(), BlockError>>,
)
    requires
        task.stage == PublishStage::<String>::ProcessBlock(root),
        call_ensures(PublishTask::<B, S>::pending, (&task,), action),
        action matches PublishAction::ProcessBlock(_, _, given) && given == step,
        call_ensures(PublishFn::<B, S>::pending, (&step,), first),
        call_ensures(PublishFn::<B, S>::into_result, (step,), result),
    ensures
        match task.request.validation_level {
            BroadcastValidation::Gossip => first is Return && (result matches Some(Ok(_))),
            BroadcastValidation::Consensus => result is None && match first {
                PublishFnAction::Send(PubsubMessage::BeaconBlock(block)) => block
                    == task.request.block,
                _ => false,
            },
            BroadcastValidation::ConsensusAndEquivocation => result is None && match first {
                PublishFnAction::CheckEquivocation(block, checked_root) => block
                    == task.request.block && checked_root == root,
                _ => false,
            },
        },
{
}

/// How a publication moves on until the chain gets the block. A block that fails verification is
/// refused with the reason. One that passes goes by the root that the caller gave, or else the
/// verified one; it is broadcast first with gossip validation, message after message, and handed to
/// the chain at once otherwise. A message that is not taken ends it. A report on anything but the
/// pending action changes nothing.
pub proof fn a_publication_moves_on_by_what_is_reported<B, S>(
    task: PublishTask<B, S>,
    messages: Seq<PubsubMessage<B, S>>,
    action: PublishAction<B, S>,
    event: PublishEvent,
    next: PublishTask<B, S>,
)
    requires
        announces(messages, *task.request.block, in_list(task.request.blobs)),
        task.stage matches PublishStage::Broadcast(_, n) ==> n < messages.len(),
        call_ensures(PublishTask::<B, S>::pending, (&task,), action),
        call_ensures(PublishTask::<B, S>::step, (task, event), next),
    ensures
        next.request == task.request,
        !reports_on(event, action) ==> same_publish_stage(next.stage, task.stage),
        reports_on(event, action) ==> match event {
            PublishEvent::GossipRejected(reason) => match next.stage {
                PublishStage::Finished(Err(Rejection::BadRequest(text))) => text@ == reason@,
                _ => false,
            },
            PublishEvent::GossipVerified(verified_root) => {
                let root = match task.request.block_root {
                    Some(given) => given,
                    None => verified_root,
                };
                match next.stage {
                    PublishStage::Broadcast(r, n) => {
                        &&& task.request.validation_level is Gossip
                        &&& r == root
                        &&& n == 0
                    },
                    PublishStage::ProcessBlock(r) => {
                        &&& task.request.validation_level !is Gossip
                        &&& r == root
                    },
                    _ => false,
                }
            },
            PublishEvent::Sent => {
                &&& task.stage matches PublishStage::Broadcast(root, n)
                &&& match next.stage {
                    PublishStage::Broadcast(r, m) => r == root && m == n + 1 && m < messages.len(),
                    PublishStage::ProcessBlock(r) => r == root && n + 1 == messages.len(),
                    _ => false,
                }
            },
            PublishEvent::SendFailed => match next.stage {
                PublishStage::Finished(Err(Rejection::ServerError(text))) => text@
                    == "unable to publish"@,
                _ => false,
            },
            PublishEvent::Processed(_) => true,
            PublishEvent::Completed => match (action, next.stage) {
                (
                    PublishAction::RegisterApiBlock(_, _, root),
                    PublishStage::RecomputeHead(r),
                ) => r == root,
                (PublishAction::RecomputeHead, PublishStage::LogLateBlock(r)) => {
                    &&& task.request.is_locally_built_block
                    &&& task.stage matches PublishStage::RecomputeHead(root)
                    &&& r == root
                },
                (PublishAction::RecomputeHead, PublishStage::Finished(Ok(_))) => {
                    !task.request.is_locally_built_block
                },
                (PublishAction::LogLateBlock(_, _, _, _), PublishStage::Finished(Ok(_))) => true,
                _ => false,
            },
        },
{
    lemma_announcement(messages, task.request.block, task.request.blobs);
}

/// What the chain's verdict on a block leads to. An imported block is followed up under its root. A
/// block that the chain has already is a success. Anything else is answered at once: parts that are
/// missing are named by the block's root, a block that was not published is the server's fault, an
/// equivocation the client's, and an invalid block the client's too unless it has been broadcast.
pub proof fn the_verdict_of_the_chain_decides_the_answer<B, S>(
    task: PublishTask<B, S>,
    root: Hash256,
    verdict: Result<AvailabilityProcessingStatus, BlockError>,
    next: PublishTask<B, S>,
    result: Option<Result<(), Rejection>>,
)
    requires
        task.stage == PublishStage::<String>::ProcessBlock(root),
        call_ensures(PublishTask::<B, S>::step, (task, PublishEvent::Processed(verdict)), next),
        call_ensures(PublishTask::<B, S>::into_result, (next,), result),
    ensures
        next.request == task.request,
        match verdict {
            Ok(AvailabilityProcessingStatus::Imported(imported)) => {
                &&& result is None
                &&& next.stage matches PublishStage::RegisterApiBlock(r)
                &&& r == imported
            },
            Ok(AvailabilityProcessingStatus::MissingComponents(_, incomplete)) => match result {
                Some(Err(Rejection::BroadcastWithoutImport(text))) => ends_in_hash(
                    text@,
                    "Missing parts of block with root "@,
                    incomplete,
                ),
                _ => false,
            },
            Err(BlockError::UnableToPublish) => match result {
                Some(Err(Rejection::ServerError(text))) => text@
                    == "unable to publish to network channel"@,
                _ => false,
            },
            Err(BlockError::Slashable) => match result {
                Some(Err(Rejection::BadRequest(text))) => text@
                    == "proposal for this slot and proposer has already been seen"@,
                _ => false,
            },
            Err(BlockError::BlockIsAlreadyKnown) => result matches Some(Ok(_)),
            Err(BlockError::Other(reason)) => match result {
                Some(Err(Rejection::BroadcastWithoutImport(text))) => {
                    &&& task.request.validation_level is Gossip
                    &&& text@ == reason@
                },
                Some(Err(Rejection::BadRequest(text))) => {
                    &&& task.request.validation_level !is Gossip
                    &&& text@ == "Invalid block: "@ + reason@
                },
                _ => false,
            },
        },
{
    if let Ok(AvailabilityProcessingStatus::MissingComponents(_, incomplete)) = verdict {
        let prefix = "Missing parts of block with root "@;
        let text = prefix + incomplete.full_text();
        lemma_full_text_spells_out(incomplete);
        assert(text.take(prefix.len() as int) =~= prefix);
        assert(text.skip(prefix.len() as int) =~= incomplete.full_text());
    }
}

/// The publication is run: each event is a report after the action that was pending.
pub open spec fn publication_goes<B, S>(
    tasks: Seq<PublishTask<B, S>>,
    actions: Seq<PublishAction<B, S>>,
    events: Seq<PublishEvent>,
) -> bool {
    &&& tasks.len() == events.len() + 1
    &&& actions.len() == events.len()
    &&& forall|i: int|
        #![trigger events[i]]
        0 <= i < events.len() ==> {
            &&& call_ensures(PublishTask::<B, S>::pending, (&tasks[i],), actions[i])
            &&& call_ensures(PublishTask::<B, S>::step, (tasks[i], events[i]), tasks[i + 1])
        }
}

/// The messages that the network took: those of the actions after which it said so.
pub open spec fn network_took<B, S>(
    actions: Seq<PublishAction<B, S>>,
    events: Seq<PublishEvent>,
) -> Seq<PubsubMessage<B, S>>
    decreases events.len(),
{
    if events.len() == 0 {
        Seq::empty()
    } else {
        let earlier = network_took(actions.drop_last(), events.drop_last());
        match (actions.last(), events.last()) {
            (PublishAction::Send(message), PublishEvent::Sent) => earlier.push(message),
            _ => earlier,
        }
    }
}

/// The events without their texts' representation.
pub(crate) open spec fn seen(events: Seq<PublishEvent>) -> Seq<PublishEvent<Seq<char>>> {
    events.map_values(|event: PublishEvent| event@)
}

/// A publication that is run goes through the stages that its events lead to.
proof fn lemma_publication_goes<B, S>(
    tasks: Seq<PublishTask<B, S>>,
    actions: Seq<PublishAction<B, S>>,
    events: Seq<PublishEvent>,
    n: int,
)
    requires
        publication_goes(tasks, actions, events),
        tasks[0].stage@ == PublishStage::<Seq<char>>::VerifyGossip,
        0 <= n <= events.len(),
    ensures
        tasks[n].request == tasks[0].request,
        tasks[n].stage@ == run(tasks[0].request, seen(events.take(n))),
        network_took(actions.take(n), events.take(n)) == sent(
            tasks[0].request,
            seen(events.take(n)),
        ),
    decreases n,
{
    if n > 0 {
        lemma_publication_goes(tasks, actions, events, n - 1);
        let event = events[n - 1];
        assert(tasks[n - 1 + 1] == tasks[n]);
        assert(events.take(n).drop_last() =~= events.take(n - 1));
        assert(actions.take(n).drop_last() =~= actions.take(n - 1));
        assert(seen(events.take(n)).drop_last() =~= seen(events.take(n - 1)));
        assert(seen(events.take(n)).last() == event@);
        assert(actions.take(n).last() == actions[n - 1]);
    }
}

/// Once the chain has the block, the publication itself sends nothing more.
proof fn lemma_nothing_is_sent_afterwards<B, S>(
    tasks: Seq<PublishTask<B, S>>,
    actions: Seq<PublishAction<B, S>>,
    events: Seq<PublishEvent>,
    at: int,
    n: int,
)
    requires
        publication_goes(tasks, actions, events),
        0 <= at <= n <= events.len(),
        tasks[at].stage is ProcessBlock,
    ensures
        tasks[n].stage !is VerifyGossip,
        tasks[n].stage !is Broadcast,
        network_took(actions.take(n), events.take(n)) == network_took(
            actions.take(at),
            events.take(at),
        ),
    decreases n,
{
    if n > at {
        lemma_nothing_is_sent_afterwards(tasks, actions, events, at, n - 1);
        let event = events[n - 1];
        assert(tasks[n - 1 + 1] == tasks[n]);
        assert(events.take(n).drop_last() =~= events.take(n - 1));
        assert(actions.take(n).drop_last() =~= actions.take(n - 1));
        assert(actions.take(n).last() == actions[n - 1]);
    }
}

/// From a request on, whatever is reported: nothing is sent but the block's messages, in order. The
/// chain gets the block when all of them have been sent, with gossip validation, and before any has
/// been otherwise.
pub proof fn a_publication_sends_all_before_the_chain_or_nothing<B, S>(
    block_root: Option<Hash256>,
    submitted: ProvenancedBlock<SignedBlockContents<SignedBeaconBlock<B>, S>>,
    validation_level: BroadcastValidation,
    seen_timestamp: u128,
    messages: Seq<PubsubMessage<B, S>>,
    tasks: Seq<PublishTask<B, S>>,
    actions: Seq<PublishAction<B, S>>,
    events: Seq<PublishEvent>,
)
    requires
        match submitted {
            ProvenancedBlock::Local(contents) => announces_contents(messages, contents),
            ProvenancedBlock::Builder(contents) => announces_contents(messages, contents),
        },
        publication_goes(tasks, actions, events),
        call_ensures(
            publish_block::<B, S>,
            (block_root, submitted, validation_level, seen_timestamp),
            tasks[0],
        ),
    ensures
        tasks.last().request == tasks[0].request,
        network_took(actions, events).is_prefix_of(messages),
        validation_level !is Gossip ==> network_took(actions, events).len() == 0,
        tasks.last().stage is ProcessBlock && validation_level is Gossip ==> network_took(
            actions,
            events,
        ) == messages,
{
    let request = tasks[0].request;
    lemma_announcement(messages, request.block, request.blobs);
    let n: int = events.len() as int;
    lemma_publication_goes(tasks, actions, events, n);
    assert(events.take(n) =~= events);
    assert(actions.take(n) =~= actions);
    if validation_level == BroadcastValidation::Gossip {
        gossip_validation_broadcasts_before_processing(request, seen(events));
    } else {
        stricter_validation_leaves_the_broadcast_to_the_chain(request, seen(events));
    }
}

/// Whatever was submitted, by whoever built it and with whatever validation: if the step that the
/// chain was given to call back for succeeds, then what the publication has sent, up to then or in
/// all, followed by what that step has sent, is every message of the block, once and in order.
pub proof fn what_was_submitted_is_broadcast_exactly_once<B, S>(
    block_root: Option<Hash256>,
    submitted: ProvenancedBlock<SignedBlockContents<SignedBeaconBlock<B>, S>>,
    validation_level: BroadcastValidation,
    seen_timestamp: u128,
    messages: Seq<PubsubMessage<B, S>>,
    tasks: Seq<PublishTask<B, S>>,
    actions: Seq<PublishAction<B, S>>,
    events: Seq<PublishEvent>,
    at: int,
    steps: Seq<PublishFn<B, S>>,
    step_actions: Seq<PublishFnAction<B, S>>,
    step_events: Seq<PublishFnEvent>,
    result: Option<Result<(), BlockError>>,
)
    requires
        match submitted {
            ProvenancedBlock::Local(contents) => announces_contents(messages, contents),
            ProvenancedBlock::Builder(contents) => announces_contents(messages, contents),
        },
        publication_goes(tasks, actions, events),
        call_ensures(
            publish_block::<B, S>,
            (block_root, submitted, validation_level, seen_timestamp),
            tasks[0],
        ),
        0 <= at < events.len(),
        actions[at] matches PublishAction::ProcessBlock(_, _, step) && step == steps[0],
        step_goes(steps, step_actions, step_events),
        call_ensures(PublishFn::<B, S>::into_result, (steps.last(),), result),
        result matches Some(Ok(_)),
    ensures
        network_took(actions.take(at), events.take(at)) + step_took(step_actions, step_events)
            == messages,
        network_took(actions, events) + step_took(step_actions, step_events) == messages,
{
    let request = tasks[0].request;
    lemma_announcement(messages, request.block, request.blobs);
    lemma_publication_goes(tasks, actions, events, at);
    let event = events[at];
    assert(tasks[at].stage is ProcessBlock);
    lemma_nothing_is_sent_afterwards(tasks, actions, events, at, events.len() as int);
    assert(events.take(events.len() as int) =~= events);
    assert(actions.take(events.len() as int) =~= actions);

    let m: int = step_events.len() as int;
    lemma_step_goes(request, steps, step_actions, step_events, m);
    assert(step_events.take(m) =~= step_events);
    assert(step_actions.take(m) =~= step_actions);
    the_callback_broadcasts_what_has_not_been_sent(
        request,
        crate::callback_laws::seen(step_events),
    );
    if validation_level == BroadcastValidation::Gossip {
        gossip_validation_broadcasts_before_processing(request, seen(events.take(at)));
    } else {
        stricter_validation_leaves_the_broadcast_to_the_chain(request, seen(events.take(at)));
    }
    assert(network_took(actions, events) + step_took(step_actions, step_events) =~= messages);
}

/// Among the reports up to some point is the chain's, on being given the block, that it has imported
/// it under this root.
pub open spec fn was_imported<B, S>(
    actions: Seq<PublishAction<B, S>>,
    events: Seq<PublishEvent>,
    n: int,
    root: Hash256,
) -> bool {
    exists|i: int|
        {
            &&& 0 <= i < n
            &&& actions[i] is ProcessBlock
            &&& #[trigger] events[i] matches PublishEvent::Processed(
                Ok(AvailabilityProcessingStatus::Imported(imported)),
            )
            &&& imported == root
        }
}

/// Among the reports up to some point is the chain's, on being given the block, that it has the block
/// already.
pub open spec fn was_known<B, S>(
    actions: Seq<PublishAction<B, S>>,
    events: Seq<PublishEvent>,
    n: int,
) -> bool {
    exists|i: int|
        {
            &&& 0 <= i < n
            &&& actions[i] is ProcessBlock
            &&& #[trigger] events[i] matches PublishEvent::Processed(Err(error))
            &&& error is BlockIsAlreadyKnown
        }
}

/// Among the actions up to some point is telling the validator monitor of the block under this root.
pub open spec fn was_registered<B, S>(
    actions: Seq<PublishAction<B, S>>,
    n: int,
    root: Hash256,
) -> bool {
    exists|i: int|
        {
            &&& 0 <= i < n
            &&& #[trigger] actions[i] matches PublishAction::RegisterApiBlock(_, _, registered)
            &&& registered == root
        }
}

/// Among the actions up to some point is recomputing the head of the chain.
pub open spec fn head_was_recomputed<B, S>(actions: Seq<PublishAction<B, S>>, n: int) -> bool {
    exists|i: int| 0 <= i < n && #[trigger] actions[i] is RecomputeHead
}

/// Among the actions up to some point is logging whether the block with this root was late.
pub open spec fn lateness_was_logged<B, S>(
    actions: Seq<PublishAction<B, S>>,
    n: int,
    root: Hash256,
) -> bool {
    exists|i: int|
        {
            &&& 0 <= i < n
            &&& #[trigger] actions[i] matches PublishAction::LogLateBlock(_, _, logged, _)
            &&& logged == root
        }
}

/// What has been done by the time a publication has got to some stage.
pub open spec fn has_been_done<B, S>(
    task: PublishTask<B, S>,
    actions: Seq<PublishAction<B, S>>,
    events: Seq<PublishEvent>,
    n: int,
) -> bool {
    match task.stage {
        PublishStage::RegisterApiBlock(root) => was_imported(actions, events, n, root),
        PublishStage::RecomputeHead(root) => {
            &&& was_imported(actions, events, n, root)
            &&& was_registered(actions, n, root)
        },
        PublishStage::LogLateBlock(root) => {
            &&& was_imported(actions, events, n, root)
            &&& was_registered(actions, n, root)
            &&& head_was_recomputed(actions, n)
            &&& task.request.is_locally_built_block
        },
        PublishStage::Finished(Ok(_)) => was_known(actions, events, n) || exists|root: Hash256|
            {
                &&& #[trigger] was_imported(actions, events, n, root)
                &&& was_registered(actions, n, root)
                &&& head_was_recomputed(actions, n)
                &&& task.request.is_locally_built_block ==> lateness_was_logged(actions, n, root)
            },
        _ => true,
    }
}

/// What has been done stays done.
proof fn lemma_done_stays_done<B, S>(
    actions: Seq<PublishAction<B, S>>,
    events: Seq<PublishEvent>,
    n: int,
)
    ensures
        forall|root: Hash256| #[trigger]
            was_imported(actions, events, n, root) ==> was_imported(actions, events, n + 1, root),
        was_known(actions, events, n) ==> was_known(actions, events, n + 1),
        forall|root: Hash256| #[trigger]
            was_registered(actions, n, root) ==> was_registered(actions, n + 1, root),
        head_was_recomputed(actions, n) ==> head_was_recomputed(actions, n + 1),
        forall|root: Hash256| #[trigger]
            lateness_was_logged(actions, n, root) ==> lateness_was_logged(actions, n + 1, root),
{
}

/// At each point of a run, what the stage calls for has been done.
proof fn lemma_done_in_order<B, S>(
    tasks: Seq<PublishTask<B, S>>,
    actions: Seq<PublishAction<B, S>>,
    events: Seq<PublishEvent>,
    n: int,
)
    requires
        publication_goes(tasks, actions, events),
        tasks[0].stage is VerifyGossip,
        0 <= n <= events.len(),
    ensures
        has_been_done(tasks[n], actions, events, n),
    decreases n,
{
    if n > 0 {
        let m: int = n - 1;
        lemma_done_in_order(tasks, actions, events, m);
        lemma_done_stays_done(actions, events, m);
        let event = events[m];
        let action = actions[m];
        assert(tasks[m + 1] == tasks[n]);
        match tasks[m].stage {
            PublishStage::RegisterApiBlock(root) => {
                assert(was_imported(actions, events, m, root));
                assert(actions[m] is RegisterApiBlock);
                assert(was_registered(actions, n, root));
            },
            PublishStage::RecomputeHead(root) => {
                assert(was_imported(actions, events, m, root));
                assert(was_registered(actions, m, root));
                assert(actions[m] is RecomputeHead);
                assert(head_was_recomputed(actions, n));
                assert(was_imported(actions, events, n, root));
            },
            PublishStage::LogLateBlock(root) => {
                assert(was_imported(actions, events, m, root));
                assert(was_registered(actions, m, root));
                assert(actions[m] is LogLateBlock);
                assert(lateness_was_logged(actions, n, root));
                assert(was_imported(actions, events, n, root));
            },
            PublishStage::ProcessBlock(_) => {
                assert(actions[m] is ProcessBlock);
                if let PublishStage::RegisterApiBlock(root) = tasks[n].stage {
                    assert(was_imported(actions, events, n, root));
                }
            },
            PublishStage::Finished(Ok(_)) => {
                if !was_known(actions, events, m) {
                    let root = choose|root: Hash256|
                        {
                            &&& #[trigger] was_imported(actions, events, m, root)
                            &&& was_registered(actions, m, root)
                            &&& head_was_recomputed(actions, m)
                            &&& tasks[m].request.is_locally_built_block ==> lateness_was_logged(
                                actions,
                                m,
                                root,
                            )
                        };
                    assert(was_registered(actions, m, root));
                    assert(tasks[m].request.is_locally_built_block ==> lateness_was_logged(
                        actions,
                        m,
                        root,
                    ));
                    assert(was_imported(actions, events, n, root));
                }
            },
            _ => {},
        }
    }
}

/// A request succeeds only if the chain, on being given the block, had it already or imported it. In
/// the latter case the validator monitor has been told of the root that it was imported under, the
/// head has been recomputed, and of a block that was built locally it has been logged whether it was
/// late.
pub proof fn a_request_succeeds_only_with_the_block_in_the_chain<B, S>(
    block_root: Option<Hash256>,
    submitted: ProvenancedBlock<SignedBlockContents<SignedBeaconBlock<B>, S>>,
    validation_level: BroadcastValidation,
    seen_timestamp: u128,
    tasks: Seq<PublishTask<B, S>>,
    actions: Seq<PublishAction<B, S>>,
    events: Seq<PublishEvent>,
    result: Option<Result<(), Rejection>>,
)
    requires
        publication_goes(tasks, actions, events),
        call_ensures(
            publish_block::<B, S>,
            (block_root, submitted, validation_level, seen_timestamp),
            tasks[0],
        ),
        call_ensures(PublishTask::<B, S>::into_result, (tasks.last(),), result),
        result matches Some(Ok(_)),
    ensures
        was_known(actions, events, events.len() as int) || exists|root: Hash256|
            {
                &&& #[trigger] was_imported(actions, events, events.len() as int, root)
                &&& was_registered(actions, actions.len() as int, root)
                &&& head_was_recomputed(actions, actions.len() as int)
                &&& submitted is Local ==> lateness_was_logged(actions, actions.len() as int, root)
            },
{
    let n: int = events.len() as int;
    lemma_publication_goes(tasks, actions, events, n);
    lemma_done_in_order(tasks, actions, events, n);
    assert(tasks[n] == tasks.last());
    if !was_known(actions, events, n) {
        let root = choose|root: Hash256|
            {
                &&& #[trigger] was_imported(actions, events, n, root)
                &&& was_registered(actions, n, root)
                &&& head_was_recomputed(actions, n)
                &&& tasks[n].request.is_locally_built_block ==> lateness_was_logged(
                    actions,
                    n,
                    root,
                )
            };
        assert(was_imported(actions, events, n, root));
    }
}

} // verus!
