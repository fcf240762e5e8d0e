//! How a block is announced, and what becomes of the parts of one that is submitted.
use std::sync::Arc;
use vstd::prelude::*;

use crate::block::{
    count_sent, next_message, pubsub_messages, shared_blobs, ForkName, ProvenancedBlock,
    PubsubMessage, SignedBeaconBlock, SignedBlobSidecar, SignedBlockContents,
};

verus! {

/// The messages are the block and after it, for the fork that has blobs, each blob with its place
/// among them; for any other fork, nothing after it.
pub open spec fn announces<B, S>(
    messages: Seq<PubsubMessage<B, S>>,
    block: SignedBeaconBlock<B>,
    blobs: Option<Seq<SignedBlobSidecar<S>>>,
) -> bool {
    &&& messages.len() >= 1
    &&& messages[0] matches PubsubMessage::BeaconBlock(announced)
    &&& *announced == block
    &&& match (block.fork_name, blobs) {
        (ForkName::Deneb, Some(blobs)) => {
            &&& messages.len() == 1 + blobs.len()
            &&& forall|i: int|
                1 <= i < messages.len() ==> match #[trigger] messages[i] {
                    PubsubMessage::BlobSidecar(sidecar) => sidecar.0 == i - 1 && sidecar.1
                        == blobs[i - 1],
                    PubsubMessage::BeaconBlock(_) => false,
                }
        },
        _ => messages.len() == 1,
    }
}

/// What is in a list of blobs, if there is one.
pub open spec fn in_list<S>(list: Option<Arc<Vec<SignedBlobSidecar<S>>>>) -> Option<
    Seq<SignedBlobSidecar<S>>,
> {
    match list {
        Some(list) => Some(list@),
        None => None,
    }
}

/// The messages announce the block that was submitted, with the blobs that were.
pub open spec fn announces_contents<B, S>(
    messages: Seq<PubsubMessage<B, S>>,
    contents: SignedBlockContents<SignedBeaconBlock<B>, S>,
) -> bool {
    match contents {
        SignedBlockContents::Block(block) => announces(messages, block, None),
        SignedBlockContents::BlockAndBlobSidecars(block, blobs) => announces(
            messages,
            block,
            Some(blobs@),
        ),
    }
}

/// There is one way to announce a block.
pub(crate) proof fn lemma_announcement<B, S>(
    messages: Seq<PubsubMessage<B, S>>,
    block: Arc<SignedBeaconBlock<B>>,
    blobs: Option<Arc<Vec<SignedBlobSidecar<S>>>>,
)
    ensures
        announces(messages, *block, in_list(blobs)) <==> messages == pubsub_messages(
            block,
            shared_blobs(blobs),
        ),
        1 <= pubsub_messages(block, shared_blobs(blobs)).len() <= 1 + usize::MAX,
{
    let all = pubsub_messages(block, shared_blobs(blobs));
    if let Some(list) = blobs {
        assert(list.len() == list@.len());
    }
    assert forall|i: int|
        announces(messages, *block, in_list(blobs)) && 0 <= i < all.len() implies messages[i]
        == all[i] by {
        if i > 0 {
            assert(messages[i] is BlobSidecar);
            let sidecar = messages[i]->BlobSidecar_0;
            assert(sidecar.0 == i - 1);
            assert(*sidecar == ((i - 1) as u64, sidecar.1));
        }
    }
    assert(announces(messages, *block, in_list(blobs)) ==> messages =~= all);
}

/// One message after another is sent, from the first to the last, and none beyond it.
pub proof fn messages_are_sent_in_order<B, S>(
    block: Arc<SignedBeaconBlock<B>>,
    blobs: Option<Arc<Vec<SignedBlobSidecar<S>>>>,
    messages: Seq<PubsubMessage<B, S>>,
    sent: u128,
    message: Option<PubsubMessage<B, S>>,
    counted: (u128, bool),
)
    requires
        announces(messages, *block, in_list(blobs)),
        call_ensures(next_message::<B, S>, (&block, &blobs, sent), message),
        call_ensures(count_sent::<B, S>, (&block, &blobs, sent), counted),
    ensures
        match message {
            Some(message) => sent < messages.len() && message == messages[sent as int],
            None => sent >= messages.len(),
        },
        counted.0 == sent + 1,
        counted.1 <==> sent + 1 == messages.len(),
{
    lemma_announcement(messages, block, blobs);
}

/// There is an announcement for every block.
pub proof fn every_block_can_be_announced<B, S>(
    block: Arc<SignedBeaconBlock<B>>,
    blobs: Option<Arc<Vec<SignedBlobSidecar<S>>>>,
) -> (messages: Seq<PubsubMessage<B, S>>)
    ensures
        announces(messages, *block, in_list(blobs)),
{
    let messages = pubsub_messages(block, shared_blobs(blobs));
    lemma_announcement(messages, block, blobs);
    messages
}

/// Taking apart what was submitted gives the block and the blobs that were submitted, and looking at
/// it gives the same block.
pub proof fn what_was_submitted_comes_apart_unchanged<K, S>(
    contents: SignedBlockContents<K, S>,
    parts: (K, Option<Vec<SignedBlobSidecar<S>>>),
    seen: &K,
)
    requires
        call_ensures(SignedBlockContents::<K, S>::deconstruct, (contents,), parts),
        call_ensures(SignedBlockContents::<K, S>::signed_block, (&contents,), seen),
    ensures
        *seen == parts.0,
        match contents {
            SignedBlockContents::Block(block) => parts.0 == block && parts.1 is None,
            SignedBlockContents::BlockAndBlobSidecars(block, blobs) => {
                &&& parts.0 == block
                &&& parts.1 matches Some(list)
                &&& list@ == blobs@
            },
        },
{
}

/// Sharing a sidecar keeps its message and its signature, and a block is labelled by who built it.
pub proof fn sharing_and_labelling_change_nothing<B, S>(
    sidecar: SignedBlobSidecar<S>,
    shared: SignedBlobSidecar<S>,
    block: B,
    local: ProvenancedBlock<B>,
    builder: ProvenancedBlock<B>,
)
    requires
        call_ensures(SignedBlobSidecar::<S>::share, (&sidecar,), shared),
        call_ensures(ProvenancedBlock::<B>::local, (block,), local),
        call_ensures(ProvenancedBlock::<B>::builder, (block,), builder),
    ensures
        shared.message == sidecar.message,
        shared.signature == sidecar.signature,
        local matches ProvenancedBlock::Local(held) && held == block,
        builder matches ProvenancedBlock::Builder(held) && held == block,
{
}

} // verus!
