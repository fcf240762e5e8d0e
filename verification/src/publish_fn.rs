//! The step of publishing that the chain calls back for, once it has found a block valid.
use std::sync::Arc;
use vstd::prelude::*;

use crate::block::{
    count_sent, next_message, pubsub_messages, shared_blobs, PubsubMessage, SignedBeaconBlock,
    SignedBlobSidecar,
};
use crate::hash::Hash256;
use crate::outcome::{result_view, BlockError, BroadcastValidation};

verus! {

/// How far the step has got.
#[derive(PartialEq, Eq, Debug)]
pub enum PublishFnStage<T = String> {
    /// It is being checked whether the proposer has equivocated.
    CheckEquivocation,
    /// So many of the block's messages have been sent, and another one is being sent.
    Broadcast(u128),
    /// The step is over.
    Finished(Result<(), BlockError<T>>),
}

impl View for PublishFnStage {
    type V = PublishFnStage<Seq<char>>;

    open spec fn view(&self) -> PublishFnStage<Seq<char>> {
        match self {
            PublishFnStage::CheckEquivocation => PublishFnStage::CheckEquivocation,
            PublishFnStage::Broadcast(sent) => PublishFnStage::Broadcast(*sent),
            PublishFnStage::Finished(result) => PublishFnStage::Finished(result_view(*result)),
        }
    }
}

/// What came of an action.
#[derive(PartialEq, Eq, Debug)]
pub enum PublishFnEvent<T = String> {
    /// Whether publishing would be a slashable equivocation, or why that could not be found out.
    EquivocationChecked(Result<bool, BlockError<T>>),
    /// The network took the message.
    Sent,
    /// The network did not take the message.
    SendFailed,
}

impl View for PublishFnEvent {
    type V = PublishFnEvent<Seq<char>>;

    open spec fn view(&self) -> PublishFnEvent<Seq<char>> {
        match self {
            PublishFnEvent::EquivocationChecked(result) => PublishFnEvent::EquivocationChecked(
                result_view(*result),
            ),
            PublishFnEvent::Sent => PublishFnEvent::Sent,
            PublishFnEvent::SendFailed => PublishFnEvent::SendFailed,
        }
    }
}

/// What has to be done next.
#[derive(PartialEq, Eq, Debug)]
pub enum PublishFnAction<B, S> {
    /// Look up whether the block's proposer has been seen proposing another block for its slot.
    CheckEquivocation(Arc<SignedBeaconBlock<B>>, Hash256),
    /// Send the message to the network.
    Send(PubsubMessage<B, S>),
    /// Nothing: the step is over.
    Return,
}

/// The stage that the step starts in. With gossip validation the block has been broadcast
/// already.
pub open spec fn first_stage(validation_level: BroadcastValidation) -> PublishFnStage<Seq<char>> {
    match validation_level {
        BroadcastValidation::Gossip => PublishFnStage::Finished(Ok(())),
        BroadcastValidation::Consensus => PublishFnStage::Broadcast(0),
        BroadcastValidation::ConsensusAndEquivocation => PublishFnStage::CheckEquivocation,
    }
}

/// The stage after an event, for a block that is published by `messages` messages. An event that
/// does not answer the pending action changes nothing.
pub open spec fn next_stage(
    messages: nat,
    stage: PublishFnStage<Seq<char>>,
    event: PublishFnEvent<Seq<char>>,
) -> PublishFnStage<Seq<char>> {
    match (stage, event) {
        (PublishFnStage::CheckEquivocation, PublishFnEvent::EquivocationChecked(result)) => {
            match result {
                Err(error) => PublishFnStage::Finished(Err(error)),
                Ok(true) => PublishFnStage::Finished(Err(BlockError::Slashable)),
                Ok(false) => PublishFnStage::Broadcast(0),
            }
        },
        (PublishFnStage::Broadcast(sent), PublishFnEvent::Sent) => {
            if sent + 1 == messages {
                PublishFnStage::Finished(Ok(()))
            } else {
                PublishFnStage::Broadcast((sent + 1) as u128)
            }
        },
        (PublishFnStage::Broadcast(_), PublishFnEvent::SendFailed) => {
            PublishFnStage::Finished(Err(BlockError::UnableToPublish))
        },
        _ => stage,
    }
}

/// Publishes a block when the chain calls back for it. Whoever runs the step performs its pending
/// action and reports what came of it, until the step is over.
#[derive(PartialEq, Eq, Debug)]
pub struct PublishFn<B, S> {
    pub block: Arc<SignedBeaconBlock<B>>,
    pub blobs: Option<Arc<Vec<SignedBlobSidecar<S>>>>,
    pub block_root: Hash256,
    pub stage: PublishFnStage,
}

impl<B, S> PublishFn<B, S> {
    /// The messages that publish the block.
    pub open spec fn messages(self) -> Seq<PubsubMessage<B, S>> {
        pubsub_messages(self.block, shared_blobs(self.blobs))
    }

    /// While it broadcasts there is a message left to send.
    pub open spec fn wf(self) -> bool {
        self.stage matches PublishFnStage::Broadcast(sent) ==> sent < self.messages().len()
    }

    /// The action is the one that the stage calls for.
    pub open spec fn demands(self, action: PublishFnAction<B, S>) -> bool {
        match self.stage {
            PublishFnStage::CheckEquivocation => action == PublishFnAction::<
                B,
                S,
            >::CheckEquivocation(self.block, self.block_root),
            PublishFnStage::Broadcast(sent) => action == PublishFnAction::<B, S>::Send(
                self.messages()[sent as int],
            ),
            PublishFnStage::Finished(_) => action == PublishFnAction::<B, S>::Return,
        }
    }

    /// The step for a block with this root, before anything has been done.
    pub fn new(
        block: Arc<SignedBeaconBlock<B>>,
        blobs: Option<Arc<Vec<SignedBlobSidecar<S>>>>,
        block_root: Hash256,
        validation_level: BroadcastValidation,
    ) -> (r: Self)
        ensures
            r.wf(),
            r.block == block,
            r.blobs == blobs,
            r.block_root == block_root,
            r.stage@ == first_stage(validation_level),
    {
        let stage = match validation_level {
            BroadcastValidation::Gossip => PublishFnStage::Finished(Ok(())),
            BroadcastValidation::Consensus => PublishFnStage::Broadcast(0),
            BroadcastValidation::ConsensusAndEquivocation => PublishFnStage::CheckEquivocation,
        };
        PublishFn { block, blobs, block_root, stage }
    }

    /// What has to be done next.
    pub fn pending(&self) -> (action: PublishFnAction<B, S>)
        requires
            self.wf(),
        ensures
            self.demands(action),
    {
        match &self.stage {
            PublishFnStage::CheckEquivocation => PublishFnAction::CheckEquivocation(
                self.block.clone(),
                self.block_root,
            ),
            PublishFnStage::Broadcast(sent) => {
                match next_message(&self.block, &self.blobs, *sent) {
                    Some(message) => PublishFnAction::Send(message),
                    None => PublishFnAction::Return,
                }
            },
            PublishFnStage::Finished(_) => PublishFnAction::Return,
        }
    }

    /// Moves on after an event.
    pub fn step(self, event: PublishFnEvent) -> (r: Self)
        requires
            self.wf(),
        ensures
            r.wf(),
            r.block == self.block,
            r.blobs == self.blobs,
            r.block_root == self.block_root,
            r.stage@ == next_stage(self.messages().len(), self.stage@, event@),
    {
        let PublishFn { block, blobs, block_root, stage } = self;
        let stage = match (stage, event) {
            (PublishFnStage::CheckEquivocation, PublishFnEvent::EquivocationChecked(result)) => {
                match result {
                    Err(error) => PublishFnStage::Finished(Err(error)),
                    Ok(true) => PublishFnStage::Finished(Err(BlockError::Slashable)),
                    Ok(false) => PublishFnStage::Broadcast(0),
                }
            },
            (PublishFnStage::Broadcast(sent), PublishFnEvent::Sent) => {
                let (sent, complete) = count_sent(&block, &blobs, sent);
                if complete {
                    PublishFnStage::Finished(Ok(()))
                } else {
                    PublishFnStage::Broadcast(sent)
                }
            },
            (PublishFnStage::Broadcast(_), PublishFnEvent::SendFailed) => {
                PublishFnStage::Finished(Err(BlockError::UnableToPublish))
            },
            (stage, _) => stage,
        };
        PublishFn { block, blobs, block_root, stage }
    }

    /// What the step reports to the chain, once it is over.
    pub fn into_result(self) -> (r: Option<Result<(), BlockError>>)
        ensures
            match self.stage {
                PublishFnStage::Finished(result) => r == Some(result),
                _ => r is None,
            },
    {
        match self.stage {
            PublishFnStage::Finished(result) => Some(result),
            _ => None,
        }
    }
}

} // verus!
