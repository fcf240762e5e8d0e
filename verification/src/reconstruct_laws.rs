//! What holds of reconstructing a block from beginning to end, whatever the node reports on the
//! way.
use vstd::prelude::*;

use crate::blinded::BlindedTask;
use crate::block::{ProvenancedBlock, PubsubMessage, SignedBlockContents};
use crate::reconstruct::{
    next_stage, starts_in, BlindedBeaconBlock, ProvenancedPayload, ReconstructEvent,
    ReconstructStage,
};

verus! {

/// Events as they are reported to a reconstruction.
pub type Events<P, F> = Seq<ReconstructEvent<P, F, Seq<char>>>;

/// The stage of a reconstruction after some events.
pub open spec fn run<P, F, S>(
    start: ReconstructStage<P, F, S, Seq<char>>,
    events: Events<P, F>,
) -> ReconstructStage<P, F, S, Seq<char>>
    decreases events.len(),
{
    if events.len() == 0 {
        start
    } else {
        next_stage(run(start, events.drop_last()), events.last())
    }
}

/// An earlier event is still among the events when more have been reported.
proof fn lemma_events_stay<P, F>(events: Events<P, F>)
    requires
        events.len() > 0,
    ensures
        events.contains(events.last()),
        forall|event: ReconstructEvent<P, F, Seq<char>>| #[trigger]
            events.drop_last().contains(event) ==> events.contains(event),
{
    let earlier = events.drop_last();
    assert(events[events.len() - 1] == events.last());
    assert forall|event: ReconstructEvent<P, F, Seq<char>>| #[trigger]
        earlier.contains(event) implies events.contains(event) by {
        let i = choose|i: int| 0 <= i < earlier.len() && earlier[i] == event;
        assert(events[i] == event);
    }
}

/// A payload counts as the builder's only if the builder revealed it, and as local only if it is an
/// empty one that was made here, or was found in the cache. The full block is said to be built where
/// its payload was, and locally if it has none.
pub proof fn the_provenance_of_a_payload_is_where_it_came_from<B, P, F, S>(
    block: BlindedBeaconBlock<B>,
    has_execution_layer: bool,
    slots_per_epoch: u64,
    start: ReconstructStage<P, F, S, Seq<char>>,
    events: Events<P, F>,
)
    requires
        starts_in(block, has_execution_layer, slots_per_epoch, start),
    ensures
        match run(start, events) {
            ReconstructStage::AddPayload(Some(ProvenancedPayload::Builder(payload))) => {
                events.contains(ReconstructEvent::Proposed(Ok(payload)))
            },
            ReconstructStage::AddPayload(Some(ProvenancedPayload::Local(payload))) => {
                ||| events.contains(ReconstructEvent::DefaultPayload(Ok(payload)))
                ||| events.contains(ReconstructEvent::CachedPayload(Some(payload)))
            },
            ReconstructStage::AddPayload(None) => block.payload_header is None,
            ReconstructStage::Finished(Ok(ProvenancedBlock::Builder(_))) => exists|payload: P|
                #![auto]
                events.contains(ReconstructEvent::Proposed(Ok(payload))),
            ReconstructStage::Finished(Ok(ProvenancedBlock::Local(_))) => {
                ||| block.payload_header is None
                ||| exists|payload: P|
                    #![auto]
                    events.contains(ReconstructEvent::DefaultPayload(Ok(payload)))
                ||| exists|payload: P|
                    #![auto]
                    events.contains(ReconstructEvent::CachedPayload(Some(payload)))
            },
            _ => true,
        },
    decreases events.len(),
{
    if events.len() > 0 {
        the_provenance_of_a_payload_is_where_it_came_from(
            block,
            has_execution_layer,
            slots_per_epoch,
            start,
            events.drop_last(),
        );
        lemma_events_stay(events);
        if let ReconstructStage::Finished(Ok(ProvenancedBlock::Builder(_))) = run(
            start,
            events.drop_last(),
        ) {
            let payload = choose|payload: P|
                #![auto]
                events.drop_last().contains(ReconstructEvent::Proposed(Ok(payload)));
            assert(events.contains(ReconstructEvent::Proposed(Ok(payload))));
        }
    }
}

/// A block is proposed to the builder only if its payload is not in the cache, and only after its
/// lateness has been logged. A block without a payload, or with an empty one, never is.
pub proof fn only_a_cache_miss_leads_to_a_blind_proposal<B, P, F, S>(
    block: BlindedBeaconBlock<B>,
    has_execution_layer: bool,
    slots_per_epoch: u64,
    start: ReconstructStage<P, F, S, Seq<char>>,
    events: Events<P, F>,
)
    requires
        starts_in(block, has_execution_layer, slots_per_epoch, start),
    ensures
        run(start, events) is CachedPayload || run(start, events) is LogLateBlock || run(
            start,
            events,
        ) is ProposeBlinded ==> {
            &&& block.payload_header matches Some(header)
            &&& !header.block_hash.is_zero()
            &&& has_execution_layer
        },
        run(start, events) is LogLateBlock || run(start, events) is ProposeBlinded
            ==> events.contains(ReconstructEvent::CachedPayload(None)),
        run(start, events) is ProposeBlinded ==> events.contains(ReconstructEvent::Completed),
    decreases events.len(),
{
    if events.len() > 0 {
        only_a_cache_miss_leads_to_a_blind_proposal(
            block,
            has_execution_layer,
            slots_per_epoch,
            start,
            events.drop_last(),
        );
        lemma_events_stay(events);
    }
}

/// A reconstructed block comes without blobs, and it is the one that the node assembled.
pub proof fn a_reconstructed_block_comes_without_blobs<B, P, F, S>(
    block: BlindedBeaconBlock<B>,
    has_execution_layer: bool,
    slots_per_epoch: u64,
    start: ReconstructStage<P, F, S, Seq<char>>,
    events: Events<P, F>,
)
    requires
        starts_in(block, has_execution_layer, slots_per_epoch, start),
    ensures
        run(start, events) matches ReconstructStage::Finished(Ok(full_block)) ==> {
            &&& crate::blinded::contents_of(full_block) matches SignedBlockContents::Block(full)
            &&& events.contains(ReconstructEvent::Assembled(Some(full)))
        },
    decreases events.len(),
{
    if events.len() > 0 {
        a_reconstructed_block_comes_without_blobs(
            block,
            has_execution_layer,
            slots_per_epoch,
            start,
            events.drop_last(),
        );
        lemma_events_stay(events);
    }
}

/// Without an execution layer a block that has a payload is refused, whatever is reported.
pub proof fn a_payload_needs_an_execution_layer<B, P, F, S>(
    block: BlindedBeaconBlock<B>,
    slots_per_epoch: u64,
    start: ReconstructStage<P, F, S, Seq<char>>,
    events: Events<P, F>,
)
    requires
        starts_in(block, false, slots_per_epoch, start),
        block.payload_header is Some,
    ensures
        run(start, events) == crate::reconstruct::failed::<P, F, S>("Missing execution layer"@),
    decreases events.len(),
{
    if events.len() > 0 {
        a_payload_needs_an_execution_layer(block, slots_per_epoch, start, events.drop_last());
    }
}

/// The only message that publishes a blinded block is the one that announces the full block.
pub proof fn a_blinded_block_is_published_by_one_message<B, S, P, F>(task: BlindedTask<B, S, P, F>)
    requires
        task.wf(),
        task.stage is Publish,
    ensures
        task.stage->Publish_0.request.block_root == Some(task.block_root),
        task.stage->Publish_0.request.messages() == seq![
            PubsubMessage::<F, S>::BeaconBlock(task.stage->Publish_0.request.block),
        ],
{
    assert(task.stage->Publish_0.request.messages() =~= seq![
        PubsubMessage::<F, S>::BeaconBlock(task.stage->Publish_0.request.block),
    ]);
}

} // verus!
