//! Publishing a block that was submitted by a client.
//!
//! A block goes through gossip verification and is handed to the chain. It is broadcast before
//! that, or when the chain calls back for it, depending on the validation that the client asked
//! for. Verifying, sending and importing is done by the node: `PublishTask` says at each point what
//! has to be done, and moves on when it is told what came of it.
use std::sync::Arc;
use vstd::prelude::*;
use vstd::string::StringExecFns;

use crate::block::{
    count_sent, next_message, pubsub_messages, shared_blobs, ProvenancedBlock, PubsubMessage,
    SignedBeaconBlock, SignedBlobSidecar, SignedBlockContents,
};
use crate::hash::Hash256;
use crate::late::Provenance;
use crate::outcome::{
    result_view, AvailabilityProcessingStatus, BlockError, BroadcastValidation, Rejection,
};
use crate::publish_fn::{first_stage, PublishFn};

verus! {

/// How far a publication has got.
#[derive(PartialEq, Eq, Debug)]
pub enum PublishStage<T = String> {
    /// The block is being checked against the gossip rules.
    VerifyGossip,
    /// The block has this root. So many of its messages have been sent, and another one is being
    /// sent.
    Broadcast(Hash256, u128),
    /// The chain is processing the block under this root.
    ProcessBlock(Hash256),
    /// The block was imported under this root, and the validator monitor is being told.
    RegisterApiBlock(Hash256),
    /// The block was imported under this root, and the head of the chain is being recomputed.
    RecomputeHead(Hash256),
    /// The block was imported under this root, and it is being logged whether it was late.
    LogLateBlock(Hash256),
    /// The request has been answered.
    Finished(Result<(), Rejection<T>>),
}

impl View for PublishStage {
    type V = PublishStage<Seq<char>>;

    open spec fn view(&self) -> PublishStage<Seq<char>> {
        match self {
            PublishStage::VerifyGossip => PublishStage::VerifyGossip,
            PublishStage::Broadcast(root, sent) => PublishStage::Broadcast(*root, *sent),
            PublishStage::ProcessBlock(root) => PublishStage::ProcessBlock(*root),
            PublishStage::RegisterApiBlock(root) => PublishStage::RegisterApiBlock(*root),
            PublishStage::RecomputeHead(root) => PublishStage::RecomputeHead(*root),
            PublishStage::LogLateBlock(root) => PublishStage::LogLateBlock(*root),
            PublishStage::Finished(result) => PublishStage::Finished(result_view(*result)),
        }
    }
}

/// What came of an action.
#[derive(PartialEq, Eq, Debug)]
pub enum PublishEvent<T = String> {
    /// The block passed the gossip checks, and has this root.
    GossipVerified(Hash256),
    /// The block failed the gossip checks, for the reason described.
    GossipRejected(T),
    /// The network took the message.
    Sent,
    /// The network did not take the message.
    SendFailed,
    /// The chain is done with the block.
    Processed(Result<AvailabilityProcessingStatus, BlockError<T>>),
    /// An action that reports nothing has been carried out.
    Completed,
}

impl View for PublishEvent {
    type V = PublishEvent<Seq<char>>;

    open spec fn view(&self) -> PublishEvent<Seq<char>> {
        match self {
            PublishEvent::GossipVerified(root) => PublishEvent::GossipVerified(*root),
            PublishEvent::GossipRejected(text) => PublishEvent::GossipRejected(text@),
            PublishEvent::Sent => PublishEvent::Sent,
            PublishEvent::SendFailed => PublishEvent::SendFailed,
            PublishEvent::Processed(result) => PublishEvent::Processed(result_view(*result)),
            PublishEvent::Completed => PublishEvent::Completed,
        }
    }
}

/// Whether the execution engine is told of a block.
#[derive(Clone, Copy, PartialEq, Eq, Structural, Debug)]
pub enum NotifyExecutionLayer {
    Yes,
    No,
}

/// What has to be done next.
#[derive(PartialEq, Eq, Debug)]
pub enum PublishAction<B, S> {
    /// Check the block and its unsigned blob sidecars against the gossip rules.
    VerifyGossip(Arc<SignedBeaconBlock<B>>, Option<Vec<Arc<S>>>),
    /// Send the message to the network.
    Send(PubsubMessage<B, S>),
    /// Have the chain process the verified block under this root, and run the step when the chain
    /// calls back for it.
    ProcessBlock(Hash256, NotifyExecutionLayer, PublishFn<B, S>),
    /// Tell the validator monitor of the block seen at this time, with this root.
    RegisterApiBlock(u128, Arc<SignedBeaconBlock<B>>, Hash256),
    /// Recompute the head of the chain at the current slot.
    RecomputeHead,
    /// Log whether the block seen at this time, with this root, was late.
    LogLateBlock(u128, Arc<SignedBeaconBlock<B>>, Hash256, Provenance),
    /// Nothing: the request has been answered.
    Return,
}

/// A client's request to publish a block.
#[derive(PartialEq, Eq, Debug)]
pub struct PublishRequest<B, S> {
    /// The root of the block, if the caller knows it.
    pub block_root: Option<Hash256>,
    pub block: Arc<SignedBeaconBlock<B>>,
    pub blobs: Option<Arc<Vec<SignedBlobSidecar<S>>>>,
    pub is_locally_built_block: bool,
    pub validation_level: BroadcastValidation,
    /// When the request was seen.
    pub seen_timestamp: u128,
}

impl<B, S> PublishRequest<B, S> {
    /// The messages that publish the block.
    pub open spec fn messages(self) -> Seq<PubsubMessage<B, S>> {
        pubsub_messages(self.block, shared_blobs(self.blobs))
    }

    /// The root under which the block is processed: the one that the caller gave, or else the one
    /// that verification found.
    pub open spec fn root(self, verified_root: Hash256) -> Hash256 {
        match self.block_root {
            Some(root) => root,
            None => verified_root,
        }
    }
}

/// The stage in which a block that passed the gossip checks goes on.
pub open spec fn after_verification<B, S>(
    request: PublishRequest<B, S>,
    verified_root: Hash256,
) -> PublishStage<Seq<char>> {
    if request.validation_level == BroadcastValidation::Gossip {
        PublishStage::Broadcast(request.root(verified_root), 0)
    } else {
        PublishStage::ProcessBlock(request.root(verified_root))
    }
}

/// The stage after the chain has processed the block: importing goes on, anything else is
/// answered.
pub open spec fn after_processing(
    validation_level: BroadcastValidation,
    result: Result<AvailabilityProcessingStatus, BlockError<Seq<char>>>,
) -> PublishStage<Seq<char>> {
    match result {
        Ok(AvailabilityProcessingStatus::Imported(root)) => PublishStage::RegisterApiBlock(root),
        Ok(AvailabilityProcessingStatus::MissingComponents(_, root)) => PublishStage::Finished(
            Err(
                Rejection::BroadcastWithoutImport(
                    "Missing parts of block with root "@ + root.full_text(),
                ),
            ),
        ),
        Err(BlockError::UnableToPublish) => PublishStage::Finished(
            Err(Rejection::ServerError("unable to publish to network channel"@)),
        ),
        Err(BlockError::Slashable) => PublishStage::Finished(
            Err(
                Rejection::BadRequest("proposal for this slot and proposer has already been seen"@),
            ),
        ),
        Err(BlockError::BlockIsAlreadyKnown) => PublishStage::Finished(Ok(())),
        Err(BlockError::Other(text)) => PublishStage::Finished(
            Err(
                if validation_level == BroadcastValidation::Gossip {
                    Rejection::BroadcastWithoutImport(text)
                } else {
                    Rejection::BadRequest("Invalid block: "@ + text)
                },
            ),
        ),
    }
}

/// The stage after an event. An event that does not answer the pending action changes nothing.
pub open spec fn next_stage<B, S>(
    request: PublishRequest<B, S>,
    stage: PublishStage<Seq<char>>,
    event: PublishEvent<Seq<char>>,
) -> PublishStage<Seq<char>> {
    match (stage, event) {
        (PublishStage::VerifyGossip, PublishEvent::GossipRejected(text)) => {
            PublishStage::Finished(Err(Rejection::BadRequest(text)))
        },
        (PublishStage::VerifyGossip, PublishEvent::GossipVerified(root)) => {
            after_verification(request, root)
        },
        (PublishStage::Broadcast(_, _), PublishEvent::SendFailed) => {
            PublishStage::Finished(Err(Rejection::ServerError("unable to publish"@)))
        },
        (PublishStage::Broadcast(root, sent), PublishEvent::Sent) => {
            if sent + 1 == request.messages().len() {
                PublishStage::ProcessBlock(root)
            } else {
                PublishStage::Broadcast(root, (sent + 1) as u128)
            }
        },
        (PublishStage::ProcessBlock(_), PublishEvent::Processed(result)) => {
            after_processing(request.validation_level, result)
        },
        (PublishStage::RegisterApiBlock(root), PublishEvent::Completed) => {
            PublishStage::RecomputeHead(root)
        },
        (PublishStage::RecomputeHead(root), PublishEvent::Completed) => {
            if request.is_locally_built_block {
                PublishStage::LogLateBlock(root)
            } else {
                PublishStage::Finished(Ok(()))
            }
        },
        (PublishStage::LogLateBlock(_), PublishEvent::Completed) => PublishStage::Finished(Ok(())),
        _ => stage,
    }
}

/// A publication in progress. Whoever runs it performs its pending action and reports what came
/// of it, until the request has been answered.
#[derive(PartialEq, Eq, Debug)]
pub struct PublishTask<B, S> {
    pub request: PublishRequest<B, S>,
    pub stage: PublishStage,
}

/// The blobs without their signatures.
pub open spec fn unsigned_blobs<S>(
    blobs: Option<Seq<SignedBlobSidecar<S>>>,
    unsigned: Option<Vec<Arc<S>>>,
) -> bool {
    match (blobs, unsigned) {
        (Some(signed), Some(unsigned)) => {
            &&& unsigned@.len() == signed.len()
            &&& forall|i: int| 0 <= i < signed.len() ==> unsigned@[i] == #[trigger] signed[i].message
        },
        (None, None) => true,
        _ => false,
    }
}

fn without_signatures<S>(blobs: &Option<Arc<Vec<SignedBlobSidecar<S>>>>) -> (r: Option<
    Vec<Arc<S>>,
>)
    ensures
        unsigned_blobs(shared_blobs(*blobs), r),
{
    match blobs {
        None => None,
        Some(signed) => {
            let mut messages: Vec<Arc<S>> = Vec::new();
            let mut i: usize = 0;
            while i < signed.len()
                invariant
                    i <= signed.len(),
                    messages@.len() == i,
                    forall|j: int| 0 <= j < i ==> messages@[j] == #[trigger] signed@[j].message,
                decreases signed.len() - i,
            {
                messages.push(signed[i].message.clone());
                i = i + 1;
            }
            Some(messages)
        },
    }
}

/// The request is for this block, with what its caller and its contents say of it.
pub open spec fn requested<B, S>(
    request: PublishRequest<B, S>,
    block_root: Option<Hash256>,
    provenanced_block: ProvenancedBlock<SignedBlockContents<SignedBeaconBlock<B>, S>>,
    validation_level: BroadcastValidation,
    seen_timestamp: u128,
) -> bool {
    let (contents, is_local) = match provenanced_block {
        ProvenancedBlock::Local(contents) => (contents, true),
        ProvenancedBlock::Builder(contents) => (contents, false),
    };
    &&& request.block_root == block_root
    &&& *request.block == contents.block()
    &&& shared_blobs(request.blobs) == contents.blobs()
    &&& request.is_locally_built_block == is_local
    &&& request.validation_level == validation_level
    &&& request.seen_timestamp == seen_timestamp
}

/// Handles a request from the HTTP API for full blocks: the publication of a block that was seen
/// at the given time, before anything has been done.
pub fn publish_block<B, S>(
    block_root: Option<Hash256>,
    provenanced_block: ProvenancedBlock<SignedBlockContents<SignedBeaconBlock<B>, S>>,
    validation_level: BroadcastValidation,
    seen_timestamp: u128,
) -> (task: PublishTask<B, S>)
    ensures
        task.wf(),
        requested(task.request, block_root, provenanced_block, validation_level, seen_timestamp),
        task.stage@ == PublishStage::<Seq<char>>::VerifyGossip,
{
    let (contents, is_locally_built_block) = match provenanced_block {
        ProvenancedBlock::Local(contents) => (contents, true),
        ProvenancedBlock::Builder(contents) => (contents, false),
    };
    let (block, maybe_blobs) = contents.deconstruct();
    let blobs = match maybe_blobs {
        Some(blobs) => Some(Arc::new(blobs)),
        None => None,
    };
    PublishTask {
        request: PublishRequest {
            block_root,
            block: Arc::new(block),
            blobs,
            is_locally_built_block,
            validation_level,
            seen_timestamp,
        },
        stage: PublishStage::VerifyGossip,
    }
}

impl<B, S> PublishTask<B, S> {
    /// While it broadcasts there is a message left to send.
    pub open spec fn wf(self) -> bool {
        self.stage matches PublishStage::Broadcast(_, sent) ==> sent
            < self.request.messages().len()
    }

    /// The action is the one that the stage calls for.
    pub open spec fn demands(self, action: PublishAction<B, S>) -> bool {
        match self.stage {
            PublishStage::VerifyGossip => {
                &&& action matches PublishAction::VerifyGossip(block, blobs)
                &&& block == self.request.block
                &&& unsigned_blobs(shared_blobs(self.request.blobs), blobs)
            },
            PublishStage::Broadcast(_, sent) => action == PublishAction::<B, S>::Send(
                self.request.messages()[sent as int],
            ),
            PublishStage::ProcessBlock(root) => {
                &&& action matches PublishAction::ProcessBlock(block_root, notify, publish_fn)
                &&& block_root == root
                &&& notify == NotifyExecutionLayer::Yes
                &&& publish_fn.wf()
                &&& publish_fn.block == self.request.block
                &&& publish_fn.blobs == self.request.blobs
                &&& publish_fn.block_root == root
                &&& publish_fn.stage@ == first_stage(self.request.validation_level)
            },
            PublishStage::RegisterApiBlock(root) => action == PublishAction::<
                B,
                S,
            >::RegisterApiBlock(self.request.seen_timestamp, self.request.block, root),
            PublishStage::RecomputeHead(_) => action == PublishAction::<B, S>::RecomputeHead,
            PublishStage::LogLateBlock(root) => action == PublishAction::<B, S>::LogLateBlock(
                self.request.seen_timestamp,
                self.request.block,
                root,
                Provenance::Local,
            ),
            PublishStage::Finished(_) => action == PublishAction::<B, S>::Return,
        }
    }

    /// What has to be done next.
    pub fn pending(&self) -> (action: PublishAction<B, S>)
        requires
            self.wf(),
        ensures
            self.demands(action),
    {
        let request = &self.request;
        match &self.stage {
            PublishStage::VerifyGossip => PublishAction::VerifyGossip(
                request.block.clone(),
                without_signatures(&request.blobs),
            ),
            PublishStage::Broadcast(_, sent) => {
                match next_message(&request.block, &request.blobs, *sent) {
                    Some(message) => PublishAction::Send(message),
                    None => PublishAction::Return,
                }
            },
            PublishStage::ProcessBlock(root) => {
                let blobs = match &request.blobs {
                    Some(blobs) => Some(blobs.clone()),
                    None => None,
                };
                let publish_fn = PublishFn::new(
                    request.block.clone(),
                    blobs,
                    *root,
                    request.validation_level,
                );
                PublishAction::ProcessBlock(*root, NotifyExecutionLayer::Yes, publish_fn)
            },
            PublishStage::RegisterApiBlock(root) => PublishAction::RegisterApiBlock(
                request.seen_timestamp,
                request.block.clone(),
                *root,
            ),
            PublishStage::RecomputeHead(_) => PublishAction::RecomputeHead,
            PublishStage::LogLateBlock(root) => PublishAction::LogLateBlock(
                request.seen_timestamp,
                request.block.clone(),
                *root,
                Provenance::Local,
            ),
            PublishStage::Finished(_) => PublishAction::Return,
        }
    }

    /// Moves on after an event.
    pub fn step(self, event: PublishEvent) -> (r: Self)
        requires
            self.wf(),
        ensures
            r.wf(),
            r.request == self.request,
            r.stage@ == next_stage(self.request, self.stage@, event@),
    {
        let PublishTask { request, stage } = self;
        let stage = match (stage, event) {
            (PublishStage::VerifyGossip, PublishEvent::GossipRejected(text)) => {
                PublishStage::Finished(Err(Rejection::BadRequest(text)))
            },
            (PublishStage::VerifyGossip, PublishEvent::GossipVerified(verified_root)) => {
                let root = match request.block_root {
                    Some(root) => root,
                    None => verified_root,
                };
                if request.validation_level == BroadcastValidation::Gossip {
                    PublishStage::Broadcast(root, 0)
                } else {
                    PublishStage::ProcessBlock(root)
                }
            },
            (PublishStage::Broadcast(_, _), PublishEvent::SendFailed) => {
                PublishStage::Finished(Err(Rejection::ServerError("unable to publish".to_owned())))
            },
            (PublishStage::Broadcast(root, sent), PublishEvent::Sent) => {
                let (sent, complete) = count_sent(&request.block, &request.blobs, sent);
                if complete {
                    PublishStage::ProcessBlock(root)
                } else {
                    PublishStage::Broadcast(root, sent)
                }
            },
            (PublishStage::ProcessBlock(_), PublishEvent::Processed(result)) => {
                conclude_processing(request.validation_level, result)
            },
            (PublishStage::RegisterApiBlock(root), PublishEvent::Completed) => {
                PublishStage::RecomputeHead(root)
            },
            (PublishStage::RecomputeHead(root), PublishEvent::Completed) => {
                if request.is_locally_built_block {
                    PublishStage::LogLateBlock(root)
                } else {
                    PublishStage::Finished(Ok(()))
                }
            },
            (PublishStage::LogLateBlock(_), PublishEvent::Completed) => {
                PublishStage::Finished(Ok(()))
            },
            (stage, _) => stage,
        };
        PublishTask { request, stage }
    }

    /// The answer to the request, once there is one.
    pub fn into_result(self) -> (r: Option<Result<(), Rejection>>)
        ensures
            match self.stage {
                PublishStage::Finished(result) => r == Some(result),
                _ => r is None,
            },
    {
        match self.stage {
            PublishStage::Finished(result) => Some(result),
            _ => None,
        }
    }
}

/// What to make of the chain's verdict on a block.
fn conclude_processing(
    validation_level: BroadcastValidation,
    result: Result<AvailabilityProcessingStatus, BlockError>,
) -> (stage: PublishStage)
    ensures
        stage@ == after_processing(validation_level, result_view(result)),
{
    match result {
        Ok(AvailabilityProcessingStatus::Imported(root)) => PublishStage::RegisterApiBlock(root),
        Ok(AvailabilityProcessingStatus::MissingComponents(_, root)) => {
            let mut msg = "Missing parts of block with root ".to_owned();
            msg.append(root.to_full_text().as_str());
            PublishStage::Finished(Err(Rejection::BroadcastWithoutImport(msg)))
        },
        Err(BlockError::UnableToPublish) => PublishStage::Finished(
            Err(Rejection::ServerError("unable to publish to network channel".to_owned())),
        ),
        Err(BlockError::Slashable) => PublishStage::Finished(
            Err(
                Rejection::BadRequest(
                    "proposal for this slot and proposer has already been seen".to_owned(),
                ),
            ),
        ),
        Err(BlockError::BlockIsAlreadyKnown) => PublishStage::Finished(Ok(())),
        Err(BlockError::Other(text)) => {
            if validation_level == BroadcastValidation::Gossip {
                PublishStage::Finished(Err(Rejection::BroadcastWithoutImport(text)))
            } else {
                let mut msg = "Invalid block: ".to_owned();
                msg.append(text.as_str());
                PublishStage::Finished(Err(Rejection::BadRequest(msg)))
            }
        },
    }
}

} // verus!
