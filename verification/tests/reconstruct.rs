use beacon_ops::blinded::{publish_blinded_block, BlindedAction, BlindedEvent, BlindedTask};
use beacon_ops::block::{
    ForkName, ProvenancedBlock, PubsubMessage, SignedBeaconBlock, SignedBlobSidecar,
    SignedBlockContents,
};
use beacon_ops::hash::Hash256;
use beacon_ops::late::Provenance;
use beacon_ops::outcome::{AvailabilityProcessingStatus, BroadcastValidation, Rejection};
use beacon_ops::payload::PayloadHeader;
use beacon_ops::publish::{PublishAction, PublishEvent};
use beacon_ops::reconstruct::{
    reconstruct_block, BlindedBeaconBlock, ReconstructAction, ReconstructEvent, ReconstructTask,
};
use std::sync::Arc;

type Contents = SignedBlockContents<BlindedBeaconBlock<&'static str>, u32>;
type Task = ReconstructTask<&'static str, u32, u64, &'static str>;
type Blinded = BlindedTask<&'static str, u32, u64, &'static str>;

fn root(byte: u8) -> Hash256 {
    Hash256 { bytes: [byte; 32] }
}

fn parse(hex: &str) -> Hash256 {
    let mut bytes = [0u8; 32];
    for i in 0..32 {
        bytes[i] = u8::from_str_radix(&hex[2 * i..2 * i + 2], 16).unwrap();
    }
    Hash256 { bytes }
}

fn blinded(payload_header: Option<PayloadHeader>) -> BlindedBeaconBlock<&'static str> {
    BlindedBeaconBlock { slot: 100, canonical_root: root(7), payload_header, inner: "blinded" }
}

fn header(block_hash: Hash256, field_roots: Vec<Hash256>) -> Option<PayloadHeader> {
    Some(PayloadHeader { block_hash, field_roots })
}

/// What a client submits: a block and a blob.
fn contents(payload_header: Option<PayloadHeader>) -> Contents {
    SignedBlockContents::BlockAndBlobSidecars(
        blinded(payload_header),
        vec![SignedBlobSidecar { message: Arc::new(5), signature: [0; 96] }],
    )
}

fn some_header() -> Option<PayloadHeader> {
    header(root(4), vec![root(1), root(2), root(3)])
}

fn task(payload_header: Option<PayloadHeader>) -> Task {
    reconstruct_block(true, 32, root(7), contents(payload_header))
}

fn full_block() -> SignedBeaconBlock<&'static str> {
    SignedBeaconBlock {
        fork_name: ForkName::Capella,
        slot: 100,
        proposer_index: 3,
        inner: "full",
    }
}

fn server_error<A>(text: &str) -> Option<Result<A, Rejection>> {
    Some(Err(Rejection::ServerError(text.to_string())))
}

#[test]
fn a_block_without_a_payload_is_assembled_as_it_is() {
    for has_execution_layer in [true, false] {
        let task: Task = reconstruct_block(has_execution_layer, 32, root(7), contents(None));
        assert_eq!(task.pending(), ReconstructAction::AddPayload(&blinded(None), None));
        let task = task.step(ReconstructEvent::Assembled(Some(full_block())));
        assert_eq!(
            task.into_result(),
            Some(Ok(ProvenancedBlock::Local(SignedBlockContents::Block(full_block()))))
        );
    }
}

#[test]
fn a_payload_needs_an_execution_layer() {
    let task: Task = reconstruct_block(false, 32, root(7), contents(some_header()));
    assert_eq!(task.pending(), ReconstructAction::Return);
    assert_eq!(task.into_result(), server_error("Missing execution layer"));
}

#[test]
fn a_zero_block_hash_stands_for_an_empty_payload() {
    let empty = || header(Hash256::zero(), vec![root(1)]);
    let start = task(empty());
    assert_eq!(start.pending(), ReconstructAction::DefaultPayload(3));
    let made = start.step(ReconstructEvent::DefaultPayload(Ok(55)));
    assert_eq!(made.pending(), ReconstructAction::AddPayload(&blinded(empty()), Some(&55)));
    let made = made.step(ReconstructEvent::Assembled(Some(full_block())));
    assert_eq!(
        made.into_result(),
        Some(Ok(ProvenancedBlock::Local(SignedBlockContents::Block(full_block()))))
    );
    let failed =
        task(empty()).step(ReconstructEvent::DefaultPayload(Err("IncorrectState".to_string())));
    assert_eq!(
        failed.into_result(),
        server_error("Default payload construction error: IncorrectState")
    );
}

#[test]
fn the_cache_is_asked_for_the_root_of_the_header() {
    let roots = [
        (vec![], parse(&"00".repeat(32))),
        (vec![root(6)], root(6)),
        (
            vec![root(0), root(0)],
            parse("f5a5fd42d16a20302798ef6ed309979b43003d2320d9f0e8ea9831a92759fb4b"),
        ),
        (
            vec![root(1), root(2), root(3)],
            parse("d6cfa0d1046a0f4c1f9a6dc57afb0f4577680c106a48cf04125e7ba8606da219"),
        ),
    ];
    for (field_roots, expected) in roots {
        let task = task(header(root(4), field_roots));
        assert_eq!(task.pending(), ReconstructAction::CachedPayload(expected));
    }
}

#[test]
fn a_cached_payload_makes_a_local_block() {
    let task = task(some_header()).step(ReconstructEvent::CachedPayload(Some(55)));
    assert_eq!(
        task.pending(),
        ReconstructAction::AddPayload(&blinded(some_header()), Some(&55))
    );
    let task = task.step(ReconstructEvent::Assembled(Some(full_block())));
    assert_eq!(
        task.into_result(),
        Some(Ok(ProvenancedBlock::Local(SignedBlockContents::Block(full_block()))))
    );
}

#[test]
fn a_cache_miss_leads_to_a_blind_proposal() {
    let task = task(some_header()).step(ReconstructEvent::CachedPayload(None));
    assert_eq!(
        task.pending(),
        ReconstructAction::LogLateBlock(&blinded(some_header()), root(7), Provenance::Builder)
    );
    let task = task.step(ReconstructEvent::Completed);
    assert_eq!(
        task.pending(),
        ReconstructAction::ProposeBlinded(root(7), &contents(some_header()))
    );
    let task = task.step(ReconstructEvent::Proposed(Ok(66)));
    assert_eq!(
        task.pending(),
        ReconstructAction::AddPayload(&blinded(some_header()), Some(&66))
    );
    let task = task.step(ReconstructEvent::Assembled(Some(full_block())));
    assert_eq!(
        task.into_result(),
        Some(Ok(ProvenancedBlock::Builder(SignedBlockContents::Block(full_block()))))
    );
}

#[test]
fn a_failed_proposal_is_a_server_error() {
    let task = task(some_header())
        .step(ReconstructEvent::CachedPayload(None))
        .step(ReconstructEvent::Completed)
        .step(ReconstructEvent::Proposed(Err("NoPayload".to_string())));
    assert_eq!(task.into_result(), server_error("Blind block proposal failed: NoPayload"));
}

#[test]
fn a_payload_that_does_not_fit_is_a_server_error() {
    let task = task(some_header())
        .step(ReconstructEvent::CachedPayload(Some(55)))
        .step(ReconstructEvent::Assembled(None));
    assert_eq!(task.into_result(), server_error("Unable to add payload to block"));
}

#[test]
fn reports_out_of_turn_change_nothing() {
    let start = task(some_header())
        .step(ReconstructEvent::Completed)
        .step(ReconstructEvent::Proposed(Ok(1)))
        .step(ReconstructEvent::Assembled(Some(full_block())));
    assert_eq!(start, task(some_header()));
    assert_eq!(start.into_result(), None);
}

#[test]
fn a_blinded_block_is_reconstructed_and_then_published() {
    let task: Blinded = publish_blinded_block(
        true,
        32,
        contents(some_header()),
        BroadcastValidation::Gossip,
    );
    assert_eq!(task.block_root, root(7));
    let task = task
        .step(BlindedEvent::Clock(1))
        .step(BlindedEvent::Reconstruct(ReconstructEvent::CachedPayload(Some(55))))
        .step(BlindedEvent::Reconstruct(ReconstructEvent::Assembled(Some(full_block()))));
    assert_eq!(task.pending(), BlindedAction::ReadClock);
    let task = task.step(BlindedEvent::Clock(900));
    assert_eq!(
        task.pending(),
        BlindedAction::Publish(PublishAction::VerifyGossip(Arc::new(full_block()), None))
    );
    let task = task.step(BlindedEvent::Publish(PublishEvent::GossipVerified(root(8))));
    assert_eq!(
        task.pending(),
        BlindedAction::Publish(PublishAction::Send(PubsubMessage::BeaconBlock(Arc::new(
            full_block()
        ))))
    );
    let task = task.step(BlindedEvent::Publish(PublishEvent::Sent));
    match task.pending() {
        BlindedAction::Publish(PublishAction::ProcessBlock(block_root, _, _)) => {
            assert_eq!(block_root, root(7))
        }
        other => panic!("unexpected action: {:?}", other),
    }
    let task = task.step(BlindedEvent::Publish(PublishEvent::Processed(Ok(
        AvailabilityProcessingStatus::Imported(root(7)),
    ))));
    assert_eq!(
        task.pending(),
        BlindedAction::Publish(PublishAction::RegisterApiBlock(
            900,
            Arc::new(full_block()),
            root(7)
        ))
    );
    let task = task
        .step(BlindedEvent::Publish(PublishEvent::Completed))
        .step(BlindedEvent::Publish(PublishEvent::Completed))
        .step(BlindedEvent::Publish(PublishEvent::Completed));
    assert_eq!(task.into_result(), Some(Ok(())));
}

#[test]
fn a_blinded_block_that_cannot_be_reconstructed_is_refused() {
    let task: Blinded = publish_blinded_block(
        false,
        32,
        contents(some_header()),
        BroadcastValidation::Consensus,
    );
    assert_eq!(task.pending(), BlindedAction::Return);
    assert_eq!(task.into_result(), server_error("Missing execution layer"));

    let task: Blinded =
        publish_blinded_block(true, 32, contents(None), BroadcastValidation::Consensus);
    let task = task.step(BlindedEvent::Reconstruct(ReconstructEvent::Assembled(None)));
    let task = task.step(BlindedEvent::Clock(5));
    assert_eq!(task.into_result(), server_error("Unable to add payload to block"));
}
