//! Signed blocks and blobs, who built them, and the messages that announce them.
use std::sync::Arc;
use vstd::prelude::*;

verus! {

/// The fork that a block belongs to.
#[derive(Clone, Copy, PartialEq, Eq, Structural, Debug)]
pub enum ForkName {
    Base,
    Altair,
    Merge,
    Capella,
    Deneb,
}

/// A signed beacon block. `B` is the signed block as the node stores it; the other fields are
/// read from it.
#[derive(PartialEq, Eq, Debug)]
pub struct SignedBeaconBlock<B> {
    pub fork_name: ForkName,
    pub slot: u64,
    pub proposer_index: u64,
    pub inner: B,
}

/// A signed blob sidecar. `S` is the sidecar without its signature.
#[derive(PartialEq, Eq, Debug)]
pub struct SignedBlobSidecar<S> {
    pub message: Arc<S>,
    pub signature: [u8; 96],
}

impl<S> SignedBlobSidecar<S> {
    /// Another handle on the same sidecar.
    pub fn share(&self) -> (r: Self)
        ensures
            r == *self,
    {
        SignedBlobSidecar { message: self.message.clone(), signature: self.signature }
    }
}

/// A block as a client submits it: alone, or with the blobs that it commits to.
#[derive(PartialEq, Eq, Debug)]
pub enum SignedBlockContents<K, S> {
    Block(K),
    BlockAndBlobSidecars(K, Vec<SignedBlobSidecar<S>>),
}

impl<K, S> SignedBlockContents<K, S> {
    /// The block that was submitted.
    pub open spec fn block(self) -> K {
        match self {
            SignedBlockContents::Block(block) => block,
            SignedBlockContents::BlockAndBlobSidecars(block, _) => block,
        }
    }

    /// The blobs that were submitted with it.
    pub open spec fn blobs(self) -> Option<Seq<SignedBlobSidecar<S>>> {
        match self {
            SignedBlockContents::Block(_) => None,
            SignedBlockContents::BlockAndBlobSidecars(_, blobs) => Some(blobs@),
        }
    }

    /// The block that was submitted.
    pub fn signed_block(&self) -> (r: &K)
        ensures
            *r == self.block(),
    {
        match self {
            SignedBlockContents::Block(block) => block,
            SignedBlockContents::BlockAndBlobSidecars(block, _) => block,
        }
    }

    /// Takes the block and its blobs apart.
    pub fn deconstruct(self) -> (r: (K, Option<Vec<SignedBlobSidecar<S>>>))
        ensures
            r.0 == self.block(),
            match r.1 {
                Some(blobs) => self.blobs() == Some(blobs@),
                None => self.blobs() is None,
            },
    {
        match self {
            SignedBlockContents::Block(block) => (block, None),
            SignedBlockContents::BlockAndBlobSidecars(block, blobs) => (block, Some(blobs)),
        }
    }
}

/// A block together with where its payload was built.
#[derive(PartialEq, Eq, Debug)]
pub enum ProvenancedBlock<B> {
    /// The payload was built using a local execution engine.
    Local(B),
    /// The payload was built using a remote builder.
    Builder(B),
}

impl<B> ProvenancedBlock<B> {
    pub fn local(block: B) -> (r: Self)
        ensures
            r == ProvenancedBlock::Local(block),
    {
        ProvenancedBlock::Local(block)
    }

    pub fn builder(block: B) -> (r: Self)
        ensures
            r == ProvenancedBlock::Builder(block),
    {
        ProvenancedBlock::Builder(block)
    }
}

/// A message for the peer-to-peer network.
#[derive(PartialEq, Eq, Debug)]
pub enum PubsubMessage<B, S> {
    /// Announces a block.
    BeaconBlock(Arc<SignedBeaconBlock<B>>),
    /// Announces a blob sidecar, with its place among the block's blobs.
    BlobSidecar(Box<(u64, SignedBlobSidecar<S>)>),
}

/// The blobs that are announced with a block: those submitted with a block of the fork that has
/// blobs, and none with any other.
pub open spec fn announced_blobs<S>(
    fork_name: ForkName,
    blobs: Option<Seq<SignedBlobSidecar<S>>>,
) -> Seq<SignedBlobSidecar<S>> {
    match (fork_name, blobs) {
        (ForkName::Deneb, Some(blobs)) => blobs,
        _ => Seq::empty(),
    }
}

/// The messages that publish a block, in the order in which they are sent: the block, then each of
/// its blobs.
pub open spec fn pubsub_messages<B, S>(
    block: Arc<SignedBeaconBlock<B>>,
    blobs: Option<Seq<SignedBlobSidecar<S>>>,
) -> Seq<PubsubMessage<B, S>> {
    let announced = announced_blobs(block.fork_name, blobs);
    seq![PubsubMessage::BeaconBlock(block)] + Seq::new(
        announced.len(),
        |i: int| PubsubMessage::BlobSidecar(Box::new((i as u64, announced[i]))),
    )
}

/// The blobs behind an optional shared list.
pub open spec fn shared_blobs<S>(blobs: Option<Arc<Vec<SignedBlobSidecar<S>>>>) -> Option<
    Seq<SignedBlobSidecar<S>>,
> {
    match blobs {
        Some(list) => Some(list@),
        None => None,
    }
}

/// The message to send when `sent` messages of a block's publication have been sent, or `None`
/// when all have.
pub fn next_message<B, S>(
    block: &Arc<SignedBeaconBlock<B>>,
    blobs: &Option<Arc<Vec<SignedBlobSidecar<S>>>>,
    sent: u128,
) -> (message: Option<PubsubMessage<B, S>>)
    ensures
        match message {
            Some(message) => sent < pubsub_messages(*block, shared_blobs(*blobs)).len() && message
                == pubsub_messages(*block, shared_blobs(*blobs))[sent as int],
            None => sent >= pubsub_messages(*block, shared_blobs(*blobs)).len(),
        },
{
    if sent == 0 {
        return Some(PubsubMessage::BeaconBlock(block.clone()));
    }
    match block.fork_name {
        ForkName::Base | ForkName::Altair | ForkName::Merge | ForkName::Capella => None,
        ForkName::Deneb => match blobs {
            Some(signed_blobs) => {
                let blob_index: u128 = sent - 1;
                if blob_index < signed_blobs.len() as u128 {
                    let index = blob_index as usize;
                    Some(
                        PubsubMessage::BlobSidecar(
                            Box::new((index as u64, signed_blobs[index].share())),
                        ),
                    )
                } else {
                    None
                }
            },
            None => None,
        },
    }
}

/// What comes after one more message has been sent: the new count, and whether it completes the
/// publication.
pub fn count_sent<B, S>(
    block: &Arc<SignedBeaconBlock<B>>,
    blobs: &Option<Arc<Vec<SignedBlobSidecar<S>>>>,
    sent: u128,
) -> (r: (u128, bool))
    requires
        sent < pubsub_messages(*block, shared_blobs(*blobs)).len(),
    ensures
        r.0 == sent + 1,
        r.1 == (r.0 == pubsub_messages(*block, shared_blobs(*blobs)).len()),
{
    proof {
        if let Some(list) = blobs {
            assert(list.len() == list@.len());
        }
    }
    let sent: u128 = sent + 1;
    (sent, next_message(block, blobs, sent).is_none())
}

} // verus!
