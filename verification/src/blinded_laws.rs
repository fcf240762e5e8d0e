//! What holds of publishing a blinded block as it is run, next to the reconstruction that it is made
//! of.
use vstd::prelude::*;

use crate::blinded::{
    publish_blinded_block, stands_for, BlindedAction, BlindedEvent, BlindedStage, BlindedTask,
};
use crate::block::{ProvenancedBlock, SignedBlockContents};
use crate::hash::Hash256;
use crate::outcome::{BroadcastValidation, Rejection};
use crate::publication_laws::{asks_for, same_answer, same_publish_stage};
use crate::publish::{PublishAction, PublishRequest, PublishTask};
use crate::reconstruct::{
    reconstruct_block, starts_in, BlindedBeaconBlock, FullBlock, ReconstructAction,
    ReconstructEvent, ReconstructStage, ReconstructTask,
};
use crate::reconstruction_laws::{blinded_block, same_reconstruct_stage};

verus! {

/// The request asks for the full block to be published: under this root and with this validation, by
/// whoever built it.
pub open spec fn asks_for_full_block<F, S>(
    request: PublishRequest<F, S>,
    block_root: Hash256,
    validation_level: BroadcastValidation,
    full_block: FullBlock<F, S>,
) -> bool {
    &&& request.block_root == Some(block_root)
    &&& request.validation_level == validation_level
    &&& match full_block {
        ProvenancedBlock::Local(contents) => request.is_locally_built_block && asks_for(
            request,
            contents,
        ),
        ProvenancedBlock::Builder(contents) => !request.is_locally_built_block && asks_for(
            request,
            contents,
        ),
    }
}

/// The publication has got as far as the reconstruction: it goes on with it, or has the full block,
/// or has been refused as the reconstruction was.
pub open spec fn is_at<B, S, P, F>(
    stage: BlindedStage<B, S, P, F>,
    reconstruction: ReconstructTask<B, S, P, F>,
) -> bool {
    match reconstruction.stage {
        ReconstructStage::Finished(Ok(full_block)) => match stage {
            BlindedStage::ReadClock(held) => held == full_block,
            _ => false,
        },
        ReconstructStage::Finished(Err(reason)) => match stage {
            BlindedStage::Refused(answer) => same_answer(answer, reason),
            _ => false,
        },
        _ => match stage {
            BlindedStage::Reconstruct(task) => {
                &&& task.contents == reconstruction.contents
                &&& task.block_root == reconstruction.block_root
                &&& same_reconstruct_stage(task.stage, reconstruction.stage)
            },
            _ => false,
        },
    }
}

/// A reconstruction starts in one way.
proof fn lemma_one_start<B, S, P, F>(
    block: BlindedBeaconBlock<B>,
    has_execution_layer: bool,
    slots_per_epoch: u64,
    a: ReconstructStage<P, F, S, Seq<char>>,
    b: ReconstructStage<P, F, S, Seq<char>>,
)
    requires
        starts_in(block, has_execution_layer, slots_per_epoch, a),
        starts_in(block, has_execution_layer, slots_per_epoch, b),
    ensures
        a == b,
{
    if let ReconstructStage::CachedPayload(root_a) = a {
        if let ReconstructStage::CachedPayload(root_b) = b {
            assert(root_a.bytes =~= root_b.bytes);
        }
    }
}

/// The publication of a blinded block starts as its reconstruction does, under the block's own root.
pub proof fn a_blinded_block_starts_with_its_reconstruction<B, S, P, F>(
    has_execution_layer: bool,
    slots_per_epoch: u64,
    contents: SignedBlockContents<BlindedBeaconBlock<B>, S>,
    validation_level: BroadcastValidation,
    task: BlindedTask<B, S, P, F>,
    reconstruction: ReconstructTask<B, S, P, F>,
)
    requires
        call_ensures(
            publish_blinded_block::<B, S, P, F>,
            (has_execution_layer, slots_per_epoch, contents, validation_level),
            task,
        ),
        call_ensures(
            reconstruct_block::<B, S, P, F>,
            (
                has_execution_layer,
                slots_per_epoch,
                blinded_block(contents).canonical_root,
                contents,
            ),
            reconstruction,
        ),
    ensures
        task.block_root == blinded_block(contents).canonical_root,
        task.validation_level == validation_level,
        is_at(task.stage, reconstruction),
{
    let start = choose|start: ReconstructStage<P, F, S, Seq<char>>|
        {
            &&& starts_in(contents.block(), has_execution_layer, slots_per_epoch, start)
            &&& #[trigger] stands_for(contents, task.block_root, start, task.stage)
        };
    lemma_one_start(
        contents.block(),
        has_execution_layer,
        slots_per_epoch,
        start,
        reconstruction.stage@,
    );
}

/// How the publication of a blinded block moves on: as its reconstruction does as long as that goes
/// on, and as any publication does once the full block is published. In between the clock is read,
/// and the full block, local or the builder's, is published as one seen at that time. Nothing else
/// changes anything.
pub proof fn a_blinded_block_moves_on_by_what_is_reported<B, S, P, F>(
    task: BlindedTask<B, S, P, F>,
    event: BlindedEvent<P, F>,
    next: BlindedTask<B, S, P, F>,
    reconstruction: ReconstructTask<B, S, P, F>,
    publication: PublishTask<F, S>,
)
    requires
        call_ensures(BlindedTask::<B, S, P, F>::step, (task, event), next),
        task.stage matches BlindedStage::Reconstruct(held) ==> (
            event matches BlindedEvent::Reconstruct(report) ==> call_ensures(
            ReconstructTask::<B, S, P, F>::step,
            (held, report),
            reconstruction,
        )),
        task.stage matches BlindedStage::Publish(held) ==> (
            event matches BlindedEvent::Publish(report) ==> call_ensures(
            PublishTask::<F, S>::step,
            (held, report),
            publication,
        )),
    ensures
        next.block_root == task.block_root,
        next.validation_level == task.validation_level,
        match (task.stage, event) {
            (BlindedStage::Reconstruct(_), BlindedEvent::Reconstruct(_)) => is_at(
                next.stage,
                reconstruction,
            ),
            (BlindedStage::ReadClock(full_block), BlindedEvent::Clock(now)) => match next.stage {
                BlindedStage::Publish(started) => {
                    &&& started.stage is VerifyGossip
                    &&& started.request.seen_timestamp == now
                    &&& asks_for_full_block(
                        started.request,
                        task.block_root,
                        task.validation_level,
                        full_block,
                    )
                },
                _ => false,
            },
            (BlindedStage::Publish(held), BlindedEvent::Publish(_)) => match next.stage {
                BlindedStage::Publish(after) => {
                    &&& after.request == held.request
                    &&& publication.request == held.request
                    &&& same_publish_stage(after.stage, publication.stage)
                },
                _ => false,
            },
            _ => next.stage == task.stage,
        },
{
}

/// The two actions are the same, with the same blobs if they have any.
pub open spec fn same_publish_action<F, S>(a: PublishAction<F, S>, b: PublishAction<F, S>) -> bool {
    match (a, b) {
        (
            PublishAction::VerifyGossip(x, Some(xs)),
            PublishAction::VerifyGossip(y, Some(ys)),
        ) => x == y && xs@ == ys@,
        _ => a == b,
    }
}

/// What is done next for a blinded block is what its reconstruction or its publication does next, or
/// reading the clock in between. The answer is the refusal, or that of the publication.
pub proof fn a_blinded_block_does_what_its_parts_do<B, S, P, F>(
    task: BlindedTask<B, S, P, F>,
    action: BlindedAction<'_, B, S, P, F>,
    result: Option<Result<(), Rejection>>,
    reconstruct_action: ReconstructAction<'_, B, S, P>,
    publish_action: PublishAction<F, S>,
    publish_result: Option<Result<(), Rejection>>,
)
    requires
        call_ensures(BlindedTask::<B, S, P, F>::pending, (&task,), action),
        call_ensures(BlindedTask::<B, S, P, F>::into_result, (task,), result),
        task.stage matches BlindedStage::Reconstruct(held) ==> call_ensures(
            ReconstructTask::<B, S, P, F>::pending,
            (&held,),
            reconstruct_action,
        ),
        task.stage matches BlindedStage::Publish(held) ==> call_ensures(
            PublishTask::<F, S>::pending,
            (&held,),
            publish_action,
        ) && call_ensures(PublishTask::<F, S>::into_result, (held,), publish_result),
    ensures
        match task.stage {
            BlindedStage::Reconstruct(_) => result is None && match action {
                BlindedAction::Reconstruct(pending) => pending == reconstruct_action,
                _ => false,
            },
            BlindedStage::ReadClock(_) => result is None && action is ReadClock,
            BlindedStage::Publish(_) => result == publish_result && match action {
                BlindedAction::Publish(pending) => same_publish_action(pending, publish_action),
                _ => false,
            },
            BlindedStage::Refused(answer) => action is Return && result == Some(
                Err::<(), Rejection>(answer),
            ),
        },
{
    if let BlindedStage::Publish(held) = task.stage {
        if let BlindedAction::Publish(PublishAction::VerifyGossip(_, Some(xs))) = action {
            if let PublishAction::VerifyGossip(_, Some(ys)) = publish_action {
                let signed = held.request.blobs->0@;
                assert forall|i: int| 0 <= i < xs@.len() implies xs@[i] == ys@[i] by {
                    assert(xs@[i] == signed[i].message);
                    assert(ys@[i] == signed[i].message);
                }
                assert(xs@ =~= ys@);
            }
        }
    }
}

/// The publication of a blinded block is run.
pub open spec fn blinded_goes<B, S, P, F>(
    tasks: Seq<BlindedTask<B, S, P, F>>,
    events: Seq<BlindedEvent<P, F>>,
) -> bool {
    &&& tasks.len() == events.len() + 1
    &&& forall|i: int|
        #![trigger events[i]]
        0 <= i < events.len() ==> call_ensures(
            BlindedTask::<B, S, P, F>::step,
            (tasks[i], events[i]),
            tasks[i + 1],
        )
}

/// A reconstruction is run.
pub open spec fn reconstruction_goes<B, S, P, F>(
    tasks: Seq<ReconstructTask<B, S, P, F>>,
    events: Seq<ReconstructEvent<P, F>>,
) -> bool {
    &&& tasks.len() == events.len() + 1
    &&& forall|i: int|
        #![trigger events[i]]
        0 <= i < events.len() ==> call_ensures(
            ReconstructTask::<B, S, P, F>::step,
            (tasks[i], events[i]),
            tasks[i + 1],
        )
}

/// What happened to the reconstruction, among all that happened.
pub open spec fn of_the_reconstruction<P, F>(events: Seq<BlindedEvent<P, F>>) -> Seq<
    ReconstructEvent<P, F>,
>
    decreases events.len(),
{
    if events.len() == 0 {
        Seq::empty()
    } else {
        let earlier = of_the_reconstruction(events.drop_last());
        match events.last() {
            BlindedEvent::Reconstruct(event) => earlier.push(event),
            _ => earlier,
        }
    }
}

/// The clock has been read, whether or not that was asked for.
pub open spec fn clock_was_read<P, F>(events: Seq<BlindedEvent<P, F>>) -> bool {
    exists|i: int| 0 <= i < events.len() && #[trigger] events[i] is Clock
}

/// The publication of a blinded block and its reconstruction, run side by side.
proof fn lemma_side_by_side<B, S, P, F>(
    has_execution_layer: bool,
    slots_per_epoch: u64,
    contents: SignedBlockContents<BlindedBeaconBlock<B>, S>,
    validation_level: BroadcastValidation,
    tasks: Seq<BlindedTask<B, S, P, F>>,
    events: Seq<BlindedEvent<P, F>>,
    reconstructions: Seq<ReconstructTask<B, S, P, F>>,
)
    requires
        call_ensures(
            publish_blinded_block::<B, S, P, F>,
            (has_execution_layer, slots_per_epoch, contents, validation_level),
            tasks[0],
        ),
        blinded_goes(tasks, events),
        call_ensures(
            reconstruct_block::<B, S, P, F>,
            (
                has_execution_layer,
                slots_per_epoch,
                blinded_block(contents).canonical_root,
                contents,
            ),
            reconstructions[0],
        ),
        reconstruction_goes(reconstructions, of_the_reconstruction(events)),
    ensures
        tasks.last().block_root == blinded_block(contents).canonical_root,
        tasks.last().validation_level == validation_level,
        reconstructions.last().contents == contents,
        reconstructions.last().block_root == blinded_block(contents).canonical_root,
        match tasks.last().stage {
            BlindedStage::Publish(publication) => clock_was_read(events)
                && match reconstructions.last().stage {
                ReconstructStage::Finished(Ok(full_block)) => asks_for_full_block(
                    publication.request,
                    blinded_block(contents).canonical_root,
                    validation_level,
                    full_block,
                ),
                _ => false,
            },
            stage => stands_for(
                contents,
                blinded_block(contents).canonical_root,
                reconstructions.last().stage@,
                stage,
            ),
        },
    decreases events.len(),
{
    if events.len() == 0 {
        assert(of_the_reconstruction(events).len() == 0);
        a_blinded_block_starts_with_its_reconstruction(
            has_execution_layer,
            slots_per_epoch,
            contents,
            validation_level,
            tasks[0],
            reconstructions[0],
        );
        let start = choose|start: ReconstructStage<P, F, S, Seq<char>>|
            {
                &&& starts_in(contents.block(), has_execution_layer, slots_per_epoch, start)
                &&& #[trigger] stands_for(contents, tasks[0].block_root, start, tasks[0].stage)
            };
        lemma_one_start(
            contents.block(),
            has_execution_layer,
            slots_per_epoch,
            start,
            reconstructions[0].stage@,
        );
    } else {
        let n: int = events.len() - 1;
        let reports = of_the_reconstruction(events);
        let earlier_events = events.drop_last();
        let earlier_tasks = tasks.drop_last();
        let earlier_reconstructions = if events.last() is Reconstruct {
            reconstructions.drop_last()
        } else {
            reconstructions
        };
        assert(earlier_tasks[0] == tasks[0]);
        assert(earlier_reconstructions[0] == reconstructions[0]);
        assert(events[n] == events.last());
        assert(tasks[n + 1] == tasks.last());
        assert(earlier_tasks.last() == tasks[n]);
        assert forall|i: int|
            #![trigger earlier_events[i]]
            0 <= i < earlier_events.len() implies call_ensures(
            BlindedTask::<B, S, P, F>::step,
            (earlier_tasks[i], earlier_events[i]),
            earlier_tasks[i + 1],
        ) by {
            assert(earlier_events[i] == events[i]);
        }
        if let BlindedEvent::Reconstruct(report) = events.last() {
            assert(reports.drop_last() =~= of_the_reconstruction(earlier_events));
            assert forall|i: int|
                #![trigger reports.drop_last()[i]]
                0 <= i < reports.drop_last().len() implies call_ensures(
                ReconstructTask::<B, S, P, F>::step,
                (earlier_reconstructions[i], reports.drop_last()[i]),
                earlier_reconstructions[i + 1],
            ) by {
                assert(reports.drop_last()[i] == reports[i]);
            }
            let k: int = reports.len() - 1;
            assert(reports[k] == report);
            assert(reconstructions[k + 1] == reconstructions.last());
            assert(earlier_reconstructions.last() == reconstructions[k]);
        }
        lemma_side_by_side(
            has_execution_layer,
            slots_per_epoch,
            contents,
            validation_level,
            earlier_tasks,
            earlier_events,
            earlier_reconstructions,
        );
        if clock_was_read(earlier_events) {
            let i = choose|i: int|
                0 <= i < earlier_events.len() && #[trigger] earlier_events[i] is Clock;
            assert(events[i] is Clock);
        }
    }
}

/// Whatever is reported, from the request on: as long as the reconstruction goes on, so does the
/// request; it is refused exactly if the reconstruction failed, with the answer that the
/// reconstruction ended with; and once there is a full block, local or the builder's, it is that
/// block that is or will be published, under the root of the blinded one.
pub proof fn a_blinded_block_is_refused_only_by_its_reconstruction<B, S, P, F>(
    has_execution_layer: bool,
    slots_per_epoch: u64,
    contents: SignedBlockContents<BlindedBeaconBlock<B>, S>,
    validation_level: BroadcastValidation,
    tasks: Seq<BlindedTask<B, S, P, F>>,
    events: Seq<BlindedEvent<P, F>>,
    reconstructions: Seq<ReconstructTask<B, S, P, F>>,
    end: Option<Result<FullBlock<F, S>, Rejection>>,
)
    requires
        call_ensures(
            publish_blinded_block::<B, S, P, F>,
            (has_execution_layer, slots_per_epoch, contents, validation_level),
            tasks[0],
        ),
        blinded_goes(tasks, events),
        call_ensures(
            reconstruct_block::<B, S, P, F>,
            (
                has_execution_layer,
                slots_per_epoch,
                blinded_block(contents).canonical_root,
                contents,
            ),
            reconstructions[0],
        ),
        reconstruction_goes(reconstructions, of_the_reconstruction(events)),
        call_ensures(
            ReconstructTask::<B, S, P, F>::into_result,
            (reconstructions.last(),),
            end,
        ),
    ensures
        tasks.last().stage matches BlindedStage::Refused(answer) ==> match end {
            Some(Err(reason)) => same_answer(answer, reason),
            _ => false,
        },
        match end {
            None => tasks.last().stage is Reconstruct && is_at(
                tasks.last().stage,
                reconstructions.last(),
            ),
            Some(Err(reason)) => match tasks.last().stage {
                BlindedStage::Refused(answer) => same_answer(answer, reason),
                _ => false,
            },
            Some(Ok(full_block)) => match tasks.last().stage {
                BlindedStage::ReadClock(held) => held == full_block,
                BlindedStage::Publish(publication) => asks_for_full_block(
                    publication.request,
                    blinded_block(contents).canonical_root,
                    validation_level,
                    full_block,
                ),
                _ => false,
            },
        },
{
    lemma_side_by_side(
        has_execution_layer,
        slots_per_epoch,
        contents,
        validation_level,
        tasks,
        events,
        reconstructions,
    );
}

/// Once the reconstruction has ended with a full block, local or the builder's, and the clock is
/// read, that block is being published. If the clock is read for the first time, the publication is
/// just starting, with a block that was seen at that time.
pub proof fn a_reconstructed_block_is_published<B, S, P, F>(
    has_execution_layer: bool,
    slots_per_epoch: u64,
    contents: SignedBlockContents<BlindedBeaconBlock<B>, S>,
    validation_level: BroadcastValidation,
    tasks: Seq<BlindedTask<B, S, P, F>>,
    events: Seq<BlindedEvent<P, F>>,
    reconstructions: Seq<ReconstructTask<B, S, P, F>>,
    full_block: FullBlock<F, S>,
    now: u128,
    next: BlindedTask<B, S, P, F>,
)
    requires
        call_ensures(
            publish_blinded_block::<B, S, P, F>,
            (has_execution_layer, slots_per_epoch, contents, validation_level),
            tasks[0],
        ),
        blinded_goes(tasks, events),
        call_ensures(
            reconstruct_block::<B, S, P, F>,
            (
                has_execution_layer,
                slots_per_epoch,
                blinded_block(contents).canonical_root,
                contents,
            ),
            reconstructions[0],
        ),
        reconstruction_goes(reconstructions, of_the_reconstruction(events)),
        call_ensures(
            ReconstructTask::<B, S, P, F>::into_result,
            (reconstructions.last(),),
            Some(Ok(full_block)),
        ),
        call_ensures(
            BlindedTask::<B, S, P, F>::step,
            (tasks.last(), BlindedEvent::Clock(now)),
            next,
        ),
    ensures
        match next.stage {
            BlindedStage::Publish(publication) => {
                &&& asks_for_full_block(
                    publication.request,
                    blinded_block(contents).canonical_root,
                    validation_level,
                    full_block,
                )
                &&& !clock_was_read(events) ==> {
                    &&& publication.stage is VerifyGossip
                    &&& publication.request.seen_timestamp == now
                }
            },
            _ => false,
        },
{
    lemma_side_by_side(
        has_execution_layer,
        slots_per_epoch,
        contents,
        validation_level,
        tasks,
        events,
        reconstructions,
    );
}

} // verus!
