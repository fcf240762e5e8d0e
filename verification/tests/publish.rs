use beacon_ops::block::{
    ForkName, ProvenancedBlock, PubsubMessage, SignedBeaconBlock, SignedBlobSidecar,
    SignedBlockContents,
};
use beacon_ops::hash::Hash256;
use beacon_ops::late::Provenance;
use beacon_ops::outcome::{
    AvailabilityProcessingStatus, BlockError, BroadcastValidation, Rejection,
};
use beacon_ops::publish::{
    publish_block, NotifyExecutionLayer, PublishAction, PublishEvent, PublishTask,
};
use beacon_ops::publish_fn::{PublishFn, PublishFnAction, PublishFnEvent};
use std::sync::Arc;

type Block = SignedBeaconBlock<&'static str>;

fn root(byte: u8) -> Hash256 {
    Hash256 { bytes: [byte; 32] }
}

fn block(fork_name: ForkName) -> Block {
    SignedBeaconBlock { fork_name, slot: 11, proposer_index: 5, inner: "block" }
}

fn blob(message: u32) -> SignedBlobSidecar<u32> {
    SignedBlobSidecar { message: Arc::new(message), signature: [message as u8; 96] }
}

fn contents(fork_name: ForkName) -> SignedBlockContents<Block, u32> {
    SignedBlockContents::BlockAndBlobSidecars(block(fork_name), vec![blob(70), blob(71)])
}

fn task(level: BroadcastValidation) -> PublishTask<&'static str, u32> {
    publish_block(None, ProvenancedBlock::local(contents(ForkName::Deneb)), level, 1000)
}

fn messages() -> Vec<PubsubMessage<&'static str, u32>> {
    vec![
        PubsubMessage::BeaconBlock(Arc::new(block(ForkName::Deneb))),
        PubsubMessage::BlobSidecar(Box::new((0, blob(70)))),
        PubsubMessage::BlobSidecar(Box::new((1, blob(71)))),
    ]
}

/// Has every message sent, and says which.
fn send_all(
    mut task: PublishTask<&'static str, u32>,
) -> (PublishTask<&'static str, u32>, Vec<PubsubMessage<&'static str, u32>>) {
    let mut sent = vec![];
    while let PublishAction::Send(message) = task.pending() {
        sent.push(message);
        task = task.step(PublishEvent::Sent);
    }
    (task, sent)
}

fn processed(
    level: BroadcastValidation,
    result: Result<AvailabilityProcessingStatus, BlockError>,
) -> Option<Result<(), Rejection>> {
    let (task, _) = send_all(task(level).step(PublishEvent::GossipVerified(root(1))));
    task.step(PublishEvent::Processed(result)).into_result()
}

fn publish_fn(level: BroadcastValidation) -> PublishFn<&'static str, u32> {
    let (task, _) = send_all(task(level).step(PublishEvent::GossipVerified(root(1))));
    match task.pending() {
        PublishAction::ProcessBlock(_, _, publish_fn) => publish_fn,
        other => panic!("unexpected action: {:?}", other),
    }
}

fn run_publish_fn(
    mut publish_fn: PublishFn<&'static str, u32>,
) -> (PublishFn<&'static str, u32>, Vec<PubsubMessage<&'static str, u32>>) {
    let mut sent = vec![];
    while let PublishFnAction::Send(message) = publish_fn.pending() {
        sent.push(message);
        publish_fn = publish_fn.step(PublishFnEvent::Sent);
    }
    (publish_fn, sent)
}

#[test]
fn gossip_checks_see_the_block_and_its_unsigned_blobs() {
    assert_eq!(
        task(BroadcastValidation::Gossip).pending(),
        PublishAction::VerifyGossip(
            Arc::new(block(ForkName::Deneb)),
            Some(vec![Arc::new(70), Arc::new(71)])
        )
    );
    let alone: PublishTask<&'static str, u32> = publish_block(
        None,
        ProvenancedBlock::builder(SignedBlockContents::Block(block(ForkName::Base))),
        BroadcastValidation::Gossip,
        0,
    );
    assert_eq!(
        alone.pending(),
        PublishAction::VerifyGossip(Arc::new(block(ForkName::Base)), None)
    );
}

#[test]
fn a_block_that_fails_the_gossip_checks_is_a_bad_request() {
    let task = task(BroadcastValidation::Gossip)
        .step(PublishEvent::GossipRejected("FutureSlot".to_string()));
    assert_eq!(task.pending(), PublishAction::Return);
    let task = task.step(PublishEvent::GossipVerified(root(1)));
    assert_eq!(
        task.into_result(),
        Some(Err(Rejection::BadRequest("FutureSlot".to_string())))
    );
}

#[test]
fn gossip_validation_sends_block_then_blobs_before_processing() {
    let task = task(BroadcastValidation::Gossip).step(PublishEvent::GossipVerified(root(1)));
    let (task, sent) = send_all(task);
    assert_eq!(sent, messages());
    match task.pending() {
        PublishAction::ProcessBlock(block_root, notify, publish_fn) => {
            assert_eq!(block_root, root(1));
            assert_eq!(notify, NotifyExecutionLayer::Yes);
            assert_eq!(publish_fn.pending(), PublishFnAction::Return);
            assert_eq!(publish_fn.into_result(), Some(Ok(())));
        }
        other => panic!("unexpected action: {:?}", other),
    }
}

#[test]
fn forks_without_blobs_announce_the_block_only() {
    for fork_name in [ForkName::Base, ForkName::Altair, ForkName::Merge, ForkName::Capella] {
        let task = publish_block(
            None,
            ProvenancedBlock::local(contents(fork_name)),
            BroadcastValidation::Gossip,
            0,
        );
        let (_, sent) = send_all(task.step(PublishEvent::GossipVerified(root(1))));
        assert_eq!(sent, vec![PubsubMessage::BeaconBlock(Arc::new(block(fork_name)))]);
    }
}

#[test]
fn a_deneb_block_without_blobs_is_announced_alone() {
    let task: PublishTask<&'static str, u32> = publish_block(
        None,
        ProvenancedBlock::local(SignedBlockContents::Block(block(ForkName::Deneb))),
        BroadcastValidation::Gossip,
        0,
    );
    let (_, sent) = send_all(task.step(PublishEvent::GossipVerified(root(1))));
    assert_eq!(sent, vec![PubsubMessage::BeaconBlock(Arc::new(block(ForkName::Deneb)))]);
}

#[test]
fn a_message_that_cannot_be_sent_is_a_server_error() {
    let task = task(BroadcastValidation::Gossip)
        .step(PublishEvent::GossipVerified(root(1)))
        .step(PublishEvent::Sent)
        .step(PublishEvent::SendFailed);
    assert_eq!(
        task.into_result(),
        Some(Err(Rejection::ServerError("unable to publish".to_string())))
    );
}

#[test]
fn the_callers_root_wins_over_the_verified_one() {
    for (given, expected) in [(Some(root(9)), root(9)), (None, root(1))] {
        let task: PublishTask<&'static str, u32> = publish_block(
            given,
            ProvenancedBlock::local(contents(ForkName::Deneb)),
            BroadcastValidation::Consensus,
            0,
        );
        match task.step(PublishEvent::GossipVerified(root(1))).pending() {
            PublishAction::ProcessBlock(block_root, _, publish_fn) => {
                assert_eq!(block_root, expected);
                assert_eq!(publish_fn.block_root, expected);
            }
            other => panic!("unexpected action: {:?}", other),
        }
    }
}

#[test]
fn consensus_validation_sends_on_callback_only() {
    let task = task(BroadcastValidation::Consensus).step(PublishEvent::GossipVerified(root(1)));
    let (_, sent) = send_all(task);
    assert!(sent.is_empty());
    let (publish_fn, sent) = run_publish_fn(publish_fn(BroadcastValidation::Consensus));
    assert_eq!(sent, messages());
    assert_eq!(publish_fn.into_result(), Some(Ok(())));
}

#[test]
fn a_failed_send_on_callback_is_reported_to_the_chain() {
    let step = publish_fn(BroadcastValidation::Consensus)
        .step(PublishFnEvent::Sent)
        .step(PublishFnEvent::SendFailed);
    assert_eq!(step.into_result(), Some(Err(BlockError::UnableToPublish)));
}

#[test]
fn equivocation_is_checked_before_sending() {
    let level = BroadcastValidation::ConsensusAndEquivocation;
    assert_eq!(
        publish_fn(level).pending(),
        PublishFnAction::CheckEquivocation(Arc::new(block(ForkName::Deneb)), root(1))
    );
    let clear = publish_fn(level).step(PublishFnEvent::EquivocationChecked(Ok(false)));
    let (clear, sent) = run_publish_fn(clear);
    assert_eq!(sent, messages());
    assert_eq!(clear.into_result(), Some(Ok(())));

    let slashable = publish_fn(level).step(PublishFnEvent::EquivocationChecked(Ok(true)));
    let (slashable, sent) = run_publish_fn(slashable);
    assert!(sent.is_empty());
    assert_eq!(slashable.into_result(), Some(Err(BlockError::Slashable)));

    let failed = publish_fn(level).step(PublishFnEvent::EquivocationChecked(Err(
        BlockError::Other("ObservedBlockProducersError".to_string()),
    )));
    let (failed, sent) = run_publish_fn(failed);
    assert!(sent.is_empty());
    assert_eq!(
        failed.into_result(),
        Some(Err(BlockError::Other("ObservedBlockProducersError".to_string())))
    );
}

#[test]
fn an_imported_local_block_is_registered_and_checked_for_lateness() {
    let (task, _) =
        send_all(task(BroadcastValidation::Gossip).step(PublishEvent::GossipVerified(root(1))));
    let block = Arc::new(block(ForkName::Deneb));
    let task = task
        .step(PublishEvent::Processed(Ok(AvailabilityProcessingStatus::Imported(root(3)))));
    assert_eq!(
        task.pending(),
        PublishAction::RegisterApiBlock(1000, block.clone(), root(3))
    );
    let task = task.step(PublishEvent::Completed);
    assert_eq!(task.pending(), PublishAction::RecomputeHead);
    let task = task.step(PublishEvent::Completed);
    assert_eq!(
        task.pending(),
        PublishAction::LogLateBlock(1000, block, root(3), Provenance::Local)
    );
    let task = task.step(PublishEvent::Completed);
    assert_eq!(task.pending(), PublishAction::Return);
    assert_eq!(task.into_result(), Some(Ok(())));
}

#[test]
fn an_imported_builder_block_is_not_checked_for_lateness() {
    let task: PublishTask<&'static str, u32> = publish_block(
        None,
        ProvenancedBlock::builder(contents(ForkName::Deneb)),
        BroadcastValidation::Consensus,
        0,
    );
    let task = task
        .step(PublishEvent::GossipVerified(root(1)))
        .step(PublishEvent::Processed(Ok(AvailabilityProcessingStatus::Imported(root(3)))))
        .step(PublishEvent::Completed)
        .step(PublishEvent::Completed);
    assert_eq!(task.into_result(), Some(Ok(())));
}

#[test]
fn answers_to_what_the_chain_makes_of_a_block() {
    let gossip = BroadcastValidation::Gossip;
    let consensus = BroadcastValidation::Consensus;
    for level in [gossip, consensus, BroadcastValidation::ConsensusAndEquivocation] {
        let mut text = "Missing parts of block with root 0x".to_string();
        text.push_str(&"2b".repeat(32));
        assert_eq!(
            processed(
                level,
                Ok(AvailabilityProcessingStatus::MissingComponents(11, root(0x2b)))
            ),
            Some(Err(Rejection::BroadcastWithoutImport(text)))
        );
        assert_eq!(
            processed(level, Err(BlockError::UnableToPublish)),
            Some(Err(Rejection::ServerError(
                "unable to publish to network channel".to_string()
            )))
        );
        assert_eq!(
            processed(level, Err(BlockError::Slashable)),
            Some(Err(Rejection::BadRequest(
                "proposal for this slot and proposer has already been seen".to_string()
            )))
        );
        assert_eq!(processed(level, Err(BlockError::BlockIsAlreadyKnown)), Some(Ok(())));
        assert_eq!(
            processed(level, Ok(AvailabilityProcessingStatus::Imported(root(1)))),
            None
        );
    }
    let other = || Err(BlockError::Other("ParentUnknown".to_string()));
    assert_eq!(
        processed(gossip, other()),
        Some(Err(Rejection::BroadcastWithoutImport("ParentUnknown".to_string())))
    );
    assert_eq!(
        processed(consensus, other()),
        Some(Err(Rejection::BadRequest("Invalid block: ParentUnknown".to_string())))
    );
}

#[test]
fn every_level_sends_every_message_once() {
    for level in [
        BroadcastValidation::Gossip,
        BroadcastValidation::Consensus,
        BroadcastValidation::ConsensusAndEquivocation,
    ] {
        let (task, mut sent) =
            send_all(task(level).step(PublishEvent::GossipVerified(root(1))));
        let mut publish_fn = match task.pending() {
            PublishAction::ProcessBlock(_, _, publish_fn) => publish_fn,
            other => panic!("unexpected action: {:?}", other),
        };
        if let PublishFnAction::CheckEquivocation(_, _) = publish_fn.pending() {
            publish_fn = publish_fn.step(PublishFnEvent::EquivocationChecked(Ok(false)));
        }
        let (_, more) = run_publish_fn(publish_fn);
        sent.extend(more);
        assert_eq!(sent, messages());
    }
}

#[test]
fn events_out_of_turn_change_nothing() {
    let task = task(BroadcastValidation::Gossip);
    let task = task.step(PublishEvent::Sent);
    let task = task.step(PublishEvent::Completed);
    let task = task.step(PublishEvent::Processed(Err(BlockError::Slashable)));
    assert_eq!(task, self::task(BroadcastValidation::Gossip));
    assert_eq!(task.into_result(), None);
}
