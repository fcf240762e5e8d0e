//! Publishing a blinded block: it is reconstructed, and then published like any other.
use vstd::prelude::*;

use crate::block::{ProvenancedBlock, SignedBeaconBlock, SignedBlockContents};
use crate::hash::Hash256;
use crate::outcome::{BroadcastValidation, Rejection};
use crate::publish::{
    publish_block, requested, PublishAction, PublishEvent, PublishStage, PublishTask,
};
use crate::reconstruct::{
    reconstruct_block, starts_in, BlindedBeaconBlock, FullBlock, ReconstructAction,
    ReconstructEvent, ReconstructStage, ReconstructTask,
};

verus! {

/// How far the publication of a blinded block has got.
#[derive(PartialEq, Eq, Debug)]
pub enum BlindedStage<B, S, P, F> {
    /// The full block is being reconstructed.
    Reconstruct(ReconstructTask<B, S, P, F>),
    /// The full block is there, and the clock is being read.
    ReadClock(FullBlock<F, S>),
    /// The full block is being published.
    Publish(PublishTask<F, S>),
    /// There is no full block, and the request has been answered.
    Refused(Rejection),
}

/// What came of an action.
#[derive(PartialEq, Eq, Debug)]
pub enum BlindedEvent<P, F> {
    /// Something happened to the reconstruction.
    Reconstruct(ReconstructEvent<P, F>),
    /// The time, in nanoseconds.
    Clock(u128),
    /// Something happened to the publication.
    Publish(PublishEvent),
}

/// What has to be done next.
#[derive(PartialEq, Eq, Debug)]
pub enum BlindedAction<'a, B, S, P, F> {
    /// An action of the reconstruction.
    Reconstruct(ReconstructAction<'a, B, S, P>),
    /// Read the clock.
    ReadClock,
    /// An action of the publication.
    Publish(PublishAction<F, S>),
    /// Nothing: the request has been answered.
    Return,
}

/// The publication of a blinded block in progress. Whoever runs it performs its pending action and
/// reports what came of it, until the request has been answered.
#[derive(PartialEq, Eq, Debug)]
pub struct BlindedTask<B, S, P, F> {
    pub block_root: Hash256,
    pub validation_level: BroadcastValidation,
    pub stage: BlindedStage<B, S, P, F>,
}

/// The contents of a full block.
pub open spec fn contents_of<F, S>(block: FullBlock<F, S>) -> SignedBlockContents<
    SignedBeaconBlock<F>,
    S,
> {
    match block {
        ProvenancedBlock::Local(contents) => contents,
        ProvenancedBlock::Builder(contents) => contents,
    }
}

/// The stage that stands for a reconstruction: the reconstruction itself as long as it goes on,
/// and what it led to when it is over.
pub open spec fn stands_for<B, S, P, F>(
    contents: SignedBlockContents<BlindedBeaconBlock<B>, S>,
    block_root: Hash256,
    reconstruction: ReconstructStage<P, F, S, Seq<char>>,
    stage: BlindedStage<B, S, P, F>,
) -> bool {
    match reconstruction {
        ReconstructStage::Finished(Ok(full_block)) => {
            stage matches BlindedStage::ReadClock(block) && block == full_block
        },
        ReconstructStage::Finished(Err(rejection)) => {
            stage matches BlindedStage::Refused(answer) && answer@ == rejection
        },
        _ => {
            &&& stage matches BlindedStage::Reconstruct(task)
            &&& task.contents == contents
            &&& task.block_root == block_root
            &&& task.stage@ == reconstruction
        },
    }
}

fn settle<B, S, P, F>(task: ReconstructTask<B, S, P, F>) -> (stage: BlindedStage<B, S, P, F>)
    ensures
        stands_for(task.contents, task.block_root, task.stage@, stage),
{
    let ReconstructTask { contents, block_root, stage } = task;
    match stage {
        ReconstructStage::Finished(Ok(full_block)) => BlindedStage::ReadClock(full_block),
        ReconstructStage::Finished(Err(rejection)) => BlindedStage::Refused(rejection),
        stage => BlindedStage::Reconstruct(ReconstructTask { contents, block_root, stage }),
    }
}

/// Handles a request from the HTTP API for blinded blocks. This converts blinded blocks into full
/// blocks before publishing.
pub fn publish_blinded_block<B, S, P, F>(
    has_execution_layer: bool,
    slots_per_epoch: u64,
    block: SignedBlockContents<BlindedBeaconBlock<B>, S>,
    validation_level: BroadcastValidation,
) -> (task: BlindedTask<B, S, P, F>)
    requires
        slots_per_epoch > 0,
        block.block().payload_header matches Some(header) ==> header.wf(),
    ensures
        task.wf(),
        task.block_root == block.block().canonical_root,
        task.validation_level == validation_level,
        exists|reconstruction: ReconstructStage<P, F, S, Seq<char>>|
            {
                &&& starts_in(block.block(), has_execution_layer, slots_per_epoch, reconstruction)
                &&& #[trigger] stands_for(block, task.block_root, reconstruction, task.stage)
            },
{
    let block_root = block.signed_block().canonical_root;
    let task: ReconstructTask<B, S, P, F> = reconstruct_block(
        has_execution_layer,
        slots_per_epoch,
        block_root,
        block,
    );
    let ghost reconstruction = task.stage@;
    assert(starts_in(block.block(), has_execution_layer, slots_per_epoch, reconstruction));
    let task = BlindedTask { block_root, validation_level, stage: settle(task) };
    assert(stands_for(block, task.block_root, reconstruction, task.stage));
    task
}

impl<B, S, P, F> BlindedTask<B, S, P, F> {
    /// The full block is published without blobs, under the root of the blinded block and with the
    /// validation that the client asked for.
    pub open spec fn wf(self) -> bool {
        match self.stage {
            BlindedStage::Reconstruct(task) => {
                &&& task.block_root == self.block_root
                &&& task.stage !is Finished
            },
            BlindedStage::ReadClock(full_block) => contents_of(full_block) is Block,
            BlindedStage::Publish(task) => {
                &&& task.wf()
                &&& task.request.block_root == Some(self.block_root)
                &&& task.request.blobs is None
                &&& task.request.validation_level == self.validation_level
            },
            BlindedStage::Refused(_) => true,
        }
    }

    /// The task follows from this one by an event. An event that does not answer the pending
    /// action changes nothing.
    pub open spec fn leads_to(self, event: BlindedEvent<P, F>, next: Self) -> bool {
        &&& next.block_root == self.block_root
        &&& next.validation_level == self.validation_level
        &&& match (self.stage, event) {
            (BlindedStage::Reconstruct(task), BlindedEvent::Reconstruct(event)) => stands_for(
                task.contents,
                task.block_root,
                crate::reconstruct::next_stage(task.stage@, event@),
                next.stage,
            ),
            (BlindedStage::ReadClock(full_block), BlindedEvent::Clock(now)) => {
                &&& next.stage matches BlindedStage::Publish(task)
                &&& requested(
                    task.request,
                    Some(self.block_root),
                    full_block,
                    self.validation_level,
                    now,
                )
                &&& task.stage@ == PublishStage::<Seq<char>>::VerifyGossip
            },
            (BlindedStage::Publish(task), BlindedEvent::Publish(event)) => {
                &&& next.stage matches BlindedStage::Publish(after)
                &&& after.request == task.request
                &&& after.stage@ == crate::publish::next_stage(
                    task.request,
                    task.stage@,
                    event@,
                )
            },
            _ => next.stage == self.stage,
        }
    }

    /// The action is the one that the stage calls for.
    pub open spec fn demands(self, action: BlindedAction<B, S, P, F>) -> bool {
        match self.stage {
            BlindedStage::Reconstruct(task) => {
                action matches BlindedAction::Reconstruct(action) && task.demands(action)
            },
            BlindedStage::ReadClock(_) => action is ReadClock,
            BlindedStage::Publish(task) => {
                action matches BlindedAction::Publish(action) && task.demands(action)
            },
            BlindedStage::Refused(_) => action is Return,
        }
    }

    /// What has to be done next.
    pub fn pending(&self) -> (action: BlindedAction<'_, B, S, P, F>)
        requires
            self.wf(),
        ensures
            self.demands(action),
    {
        match &self.stage {
            BlindedStage::Reconstruct(task) => BlindedAction::Reconstruct(task.pending()),
            BlindedStage::ReadClock(_) => BlindedAction::ReadClock,
            BlindedStage::Publish(task) => BlindedAction::Publish(task.pending()),
            BlindedStage::Refused(_) => BlindedAction::Return,
        }
    }

    /// Moves on after an event.
    pub fn step(self, event: BlindedEvent<P, F>) -> (r: Self)
        requires
            self.wf(),
        ensures
            r.wf(),
            self.leads_to(event, r),
    {
        let BlindedTask { block_root, validation_level, stage } = self;
        let stage = match (stage, event) {
            (BlindedStage::Reconstruct(task), BlindedEvent::Reconstruct(event)) => {
                settle(task.step(event))
            },
            (BlindedStage::ReadClock(full_block), BlindedEvent::Clock(now)) => {
                BlindedStage::Publish(
                    publish_block(Some(block_root), full_block, validation_level, now),
                )
            },
            (BlindedStage::Publish(task), BlindedEvent::Publish(event)) => {
                BlindedStage::Publish(task.step(event))
            },
            (stage, _) => stage,
        };
        BlindedTask { block_root, validation_level, stage }
    }

    /// The answer to the request, once there is one.
    pub fn into_result(self) -> (r: Option<Result<(), Rejection>>)
        ensures
            match self.stage {
                BlindedStage::Refused(rejection) => r == Some(Err::<(), Rejection>(rejection)),
                BlindedStage::Publish(task) => match task.stage {
                    PublishStage::Finished(result) => r == Some(result),
                    _ => r is None,
                },
                _ => r is None,
            },
    {
        match self.stage {
            BlindedStage::Refused(rejection) => Some(Err(rejection)),
            BlindedStage::Publish(task) => task.into_result(),
            _ => None,
        }
    }
}

} // verus!
