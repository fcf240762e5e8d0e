//! What holds of reconstructing a block as it is run: one pending action after another, each with
//! what came of it.
use vstd::prelude::*;

use crate::block::{ProvenancedBlock, SignedBlockContents};
use crate::hash::Hash256;
use crate::outcome::Rejection;
use crate::payload::{joined_bytes_are_found_by_their_place, merkle_root_of, PayloadHeader};
use crate::publication_laws::same_answer;
use crate::reconstruct::{
    reconstruct_block, BlindedBeaconBlock, FullBlock, ProvenancedPayload, ReconstructAction,
    ReconstructEvent, ReconstructStage, ReconstructTask,
};

verus! {

/// The blinded block among what was submitted.
pub open spec fn blinded_block<B, S>(
    contents: SignedBlockContents<BlindedBeaconBlock<B>, S>,
) -> BlindedBeaconBlock<B> {
    match contents {
        SignedBlockContents::Block(block) => block,
        SignedBlockContents::BlockAndBlobSidecars(block, _) => block,
    }
}

/// Every byte of the hash is zero.
pub open spec fn all_zero(hash: Hash256) -> bool {
    forall|k: int| 0 <= k < 32 ==> #[trigger] hash.bytes@[k] == 0
}

/// The root of a header is that of the Merkle tree with a leaf for each of its fields: over as many
/// leaves as it has fields, and over the bytes of all of them.
pub proof fn a_header_is_hashed_over_all_its_fields(
    header: PayloadHeader,
    bytes: Seq<u8>,
    root: Hash256,
)
    requires
        call_ensures(PayloadHeader::tree_hash_root, (&header,), root),
        bytes.len() == 32 * header.field_roots@.len(),
        forall|k: int, j: int|
            0 <= k < header.field_roots@.len() && 0 <= j < 32 ==> bytes[32 * k + j]
                == #[trigger] header.field_roots@[k].bytes@[j],
    ensures
        root.bytes@ == merkle_root_of(bytes, header.field_roots@.len()),
{
    joined_bytes_are_found_by_their_place(header.field_roots@, bytes);
}

/// The payload that is looked up is the one whose header is hashed over all its fields.
pub proof fn a_payload_is_looked_up_by_all_its_header<B, S, P, F>(
    has_execution_layer: bool,
    slots_per_epoch: u64,
    block_root: Hash256,
    contents: SignedBlockContents<BlindedBeaconBlock<B>, S>,
    header: PayloadHeader,
    bytes: Seq<u8>,
    task: ReconstructTask<B, S, P, F>,
    action: ReconstructAction<'_, B, S, P>,
)
    requires
        call_ensures(
            reconstruct_block::<B, S, P, F>,
            (has_execution_layer, slots_per_epoch, block_root, contents),
            task,
        ),
        call_ensures(ReconstructTask::<B, S, P, F>::pending, (&task,), action),
        blinded_block(contents).payload_header == Some(header),
        has_execution_layer,
        !all_zero(header.block_hash),
        bytes.len() == 32 * header.field_roots@.len(),
        forall|k: int, j: int|
            0 <= k < header.field_roots@.len() && 0 <= j < 32 ==> bytes[32 * k + j]
                == #[trigger] header.field_roots@[k].bytes@[j],
    ensures
        match action {
            ReconstructAction::CachedPayload(root) => root.bytes@ == merkle_root_of(
                bytes,
                header.field_roots@.len(),
            ),
            _ => false,
        },
{
    joined_bytes_are_found_by_their_place(header.field_roots@, bytes);
    assert(!header.block_hash.is_zero()) by {
        let k = choose|k: int| 0 <= k < 32 && #[trigger] header.block_hash.bytes@[k] != 0;
        assert(header.block_hash.bytes[k] != 0);
    }
}

/// What a reconstruction does first. A block without a payload is assembled as it is. A payload
/// needs an execution layer. An empty payload, for no execution block, is made for the epoch that the
/// block's slot lies in, and any other is looked up.
pub proof fn a_reconstruction_starts_with_the_payload<B, S, P, F>(
    has_execution_layer: bool,
    slots_per_epoch: u64,
    block_root: Hash256,
    contents: SignedBlockContents<BlindedBeaconBlock<B>, S>,
    task: ReconstructTask<B, S, P, F>,
    action: ReconstructAction<'_, B, S, P>,
    result: Option<Result<FullBlock<F, S>, Rejection>>,
)
    requires
        slots_per_epoch > 0,
        call_ensures(
            reconstruct_block::<B, S, P, F>,
            (has_execution_layer, slots_per_epoch, block_root, contents),
            task,
        ),
        call_ensures(ReconstructTask::<B, S, P, F>::pending, (&task,), action),
        call_ensures(ReconstructTask::<B, S, P, F>::into_result, (task,), result),
    ensures
        task.contents == contents,
        task.block_root == block_root,
        match blinded_block(contents).payload_header {
            None => result is None && (task.stage matches ReconstructStage::AddPayload(None))
                && match action {
                ReconstructAction::AddPayload(block, None) => *block == blinded_block(contents),
                _ => false,
            },
            Some(header) => if !has_execution_layer {
                match result {
                    Some(Err(Rejection::ServerError(text))) => text@ == "Missing execution layer"@,
                    _ => false,
                }
            } else if all_zero(header.block_hash) {
                result is None && match action {
                    ReconstructAction::DefaultPayload(epoch) => epoch * slots_per_epoch
                        <= blinded_block(contents).slot < (epoch + 1) * slots_per_epoch,
                    _ => false,
                }
            } else {
                result is None && action is CachedPayload
            },
        },
{
    if let Some(header) = blinded_block(contents).payload_header {
        if all_zero(header.block_hash) {
            assert forall|k: int| 0 <= k < 32 implies header.block_hash.bytes[k] == 0 by {
                assert(header.block_hash.bytes@[k] == 0);
            }
            assert(header.block_hash.is_zero());
        } else {
            let k = choose|k: int| 0 <= k < 32 && #[trigger] header.block_hash.bytes@[k] != 0;
            assert(header.block_hash.bytes[k] != 0);
        }
        let slot: int = blinded_block(contents).slot as int;
        let length: int = slots_per_epoch as int;
        assert(slot / length * length <= slot < (slot / length + 1) * length) by (nonlinear_arith)
            requires
                slot >= 0,
                length > 0,
        ;
    }
}

/// What a reconstruction does next is what its stage says.
pub proof fn a_reconstruction_does_what_its_stage_says<B, S, P, F>(
    task: ReconstructTask<B, S, P, F>,
    action: ReconstructAction<'_, B, S, P>,
    result: Option<Result<FullBlock<F, S>, Rejection>>,
)
    requires
        call_ensures(ReconstructTask::<B, S, P, F>::pending, (&task,), action),
        call_ensures(ReconstructTask::<B, S, P, F>::into_result, (task,), result),
    ensures
        task.stage matches ReconstructStage::Finished(outcome) ==> action is Return && result
            == Some(outcome),
        task.stage !is Finished ==> result is None,
        task.stage matches ReconstructStage::DefaultPayload(epoch) ==> match action {
            ReconstructAction::DefaultPayload(asked) => asked == epoch,
            _ => false,
        },
        task.stage matches ReconstructStage::CachedPayload(root) ==> match action {
            ReconstructAction::CachedPayload(asked) => asked == root,
            _ => false,
        },
        task.stage is LogLateBlock ==> match action {
            ReconstructAction::LogLateBlock(block, root, provenance) => {
                &&& *block == blinded_block(task.contents)
                &&& root == task.block_root
                &&& provenance is Builder
            },
            _ => false,
        },
        task.stage is ProposeBlinded ==> match action {
            ReconstructAction::ProposeBlinded(root, contents) => root == task.block_root
                && *contents == task.contents,
            _ => false,
        },
        task.stage matches ReconstructStage::AddPayload(held) ==> match action {
            ReconstructAction::AddPayload(block, given) => {
                &&& *block == blinded_block(task.contents)
                &&& match (held, given) {
                    (None, None) => true,
                    (Some(ProvenancedPayload::Local(payload)), Some(given)) => *given == payload,
                    (Some(ProvenancedPayload::Builder(payload)), Some(given)) => *given == payload,
                    _ => false,
                }
            },
            _ => false,
        },
{
}

/// The two stages are the same, with the same text if they have any.
pub open spec fn same_reconstruct_stage<P, F, S>(
    a: ReconstructStage<P, F, S>,
    b: ReconstructStage<P, F, S>,
) -> bool {
    match (a, b) {
        (ReconstructStage::DefaultPayload(x), ReconstructStage::DefaultPayload(y)) => x == y,
        (ReconstructStage::CachedPayload(x), ReconstructStage::CachedPayload(y)) => x == y,
        (ReconstructStage::LogLateBlock, ReconstructStage::LogLateBlock) => true,
        (ReconstructStage::ProposeBlinded, ReconstructStage::ProposeBlinded) => true,
        (ReconstructStage::AddPayload(x), ReconstructStage::AddPayload(y)) => x == y,
        (ReconstructStage::Finished(Ok(x)), ReconstructStage::Finished(Ok(y))) => x == y,
        (ReconstructStage::Finished(Err(x)), ReconstructStage::Finished(Err(y))) => same_answer(
            x,
            y,
        ),
        _ => false,
    }
}

/// The event is a report on the action.
pub open spec fn reports_on<B, S, P, F>(
    event: ReconstructEvent<P, F>,
    action: ReconstructAction<'_, B, S, P>,
) -> bool {
    match event {
        ReconstructEvent::DefaultPayload(_) => action is DefaultPayload,
        ReconstructEvent::CachedPayload(_) => action is CachedPayload,
        ReconstructEvent::Completed => action is LogLateBlock,
        ReconstructEvent::Proposed(_) => action is ProposeBlinded,
        ReconstructEvent::Assembled(_) => action is AddPayload,
    }
}

/// The reconstruction has failed for the server's fault.
pub open spec fn failed_saying<P, F, S>(stage: ReconstructStage<P, F, S>, text: Seq<char>) -> bool {
    match stage {
        ReconstructStage::Finished(Err(Rejection::ServerError(said))) => said@ == text,
        _ => false,
    }
}

/// How a reconstruction moves on. A payload that was made here or was found in the cache is local, and
/// one that the builder revealed is the builder's. After a miss it is logged whether the block is
/// late, and then it is proposed. The assembled block comes without blobs, and is said to be built
/// where its payload was, or locally without one. A report on anything but the pending action changes
/// nothing.
pub proof fn a_reconstruction_moves_on_by_what_is_reported<B, S, P, F>(
    task: ReconstructTask<B, S, P, F>,
    action: ReconstructAction<'_, B, S, P>,
    event: ReconstructEvent<P, F>,
    next: ReconstructTask<B, S, P, F>,
)
    requires
        call_ensures(ReconstructTask::<B, S, P, F>::pending, (&task,), action),
        call_ensures(ReconstructTask::<B, S, P, F>::step, (task, event), next),
    ensures
        next.contents == task.contents,
        next.block_root == task.block_root,
        !reports_on(event, action) ==> same_reconstruct_stage(next.stage, task.stage),
        reports_on(event, action) ==> match event {
            ReconstructEvent::DefaultPayload(Ok(payload)) => match next.stage {
                ReconstructStage::AddPayload(Some(ProvenancedPayload::Local(held))) => held
                    == payload,
                _ => false,
            },
            ReconstructEvent::DefaultPayload(Err(reason)) => failed_saying(
                next.stage,
                "Default payload construction error: "@ + reason@,
            ),
            ReconstructEvent::CachedPayload(Some(payload)) => match next.stage {
                ReconstructStage::AddPayload(Some(ProvenancedPayload::Local(held))) => held
                    == payload,
                _ => false,
            },
            ReconstructEvent::CachedPayload(None) => next.stage is LogLateBlock,
            ReconstructEvent::Completed => next.stage is ProposeBlinded,
            ReconstructEvent::Proposed(Ok(payload)) => match next.stage {
                ReconstructStage::AddPayload(Some(ProvenancedPayload::Builder(held))) => held
                    == payload,
                _ => false,
            },
            ReconstructEvent::Proposed(Err(reason)) => failed_saying(
                next.stage,
                "Blind block proposal failed: "@ + reason@,
            ),
            ReconstructEvent::Assembled(Some(full)) => match (task.stage, next.stage) {
                (
                    ReconstructStage::AddPayload(Some(ProvenancedPayload::Builder(_))),
                    ReconstructStage::Finished(
                        Ok(ProvenancedBlock::Builder(SignedBlockContents::Block(block))),
                    ),
                ) => block == full,
                (
                    ReconstructStage::AddPayload(Some(ProvenancedPayload::Local(_))),
                    ReconstructStage::Finished(
                        Ok(ProvenancedBlock::Local(SignedBlockContents::Block(block))),
                    ),
                ) => block == full,
                (
                    ReconstructStage::AddPayload(None),
                    ReconstructStage::Finished(
                        Ok(ProvenancedBlock::Local(SignedBlockContents::Block(block))),
                    ),
                ) => block == full,
                _ => false,
            },
            ReconstructEvent::Assembled(None) => failed_saying(
                next.stage,
                "Unable to add payload to block"@,
            ),
        },
{
}

} // verus!
