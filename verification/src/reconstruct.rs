//! Turning a blinded block back into a full one.
//!
//! The full payload comes from the cache of the execution layer or, if that misses, from the
//! builder that the block is proposed to. Looking up, proposing and assembling is done by the node:
//! `ReconstructTask` says at each point what has to be done, and moves on when it is told what came
//! of it.
use vstd::prelude::*;
use vstd::string::StringExecFns;

use crate::block::{ProvenancedBlock, SignedBeaconBlock, SignedBlockContents};
use crate::hash::Hash256;
use crate::late::Provenance;
use crate::outcome::{result_view, Rejection};
use crate::payload::{merkle_root_of, PayloadHeader};

verus! {

/// A signed block with the header of its execution payload in the payload's place. `B` is the
/// signed block as the node stores it; the other fields are read from it.
#[derive(PartialEq, Eq, Debug)]
pub struct BlindedBeaconBlock<B> {
    pub slot: u64,
    pub canonical_root: Hash256,
    /// The header of the payload, if the block is of a fork that has payloads.
    pub payload_header: Option<PayloadHeader>,
    pub inner: B,
}

/// A full payload together with where it was built.
#[derive(PartialEq, Eq, Debug)]
pub enum ProvenancedPayload<P> {
    Local(P),
    Builder(P),
}

/// A full block together with where its payload was built.
pub type FullBlock<F, S> = ProvenancedBlock<SignedBlockContents<SignedBeaconBlock<F>, S>>;

/// How far a reconstruction has got.
#[derive(PartialEq, Eq, Debug)]
pub enum ReconstructStage<P, F, S, T = String> {
    /// An empty payload is being made for the fork at this epoch.
    DefaultPayload(u64),
    /// The payload whose header has this root is being looked up.
    CachedPayload(Hash256),
    /// It is being logged whether the block is late.
    LogLateBlock,
    /// The block is being proposed to the builder.
    ProposeBlinded,
    /// The block and its payload are being assembled.
    AddPayload(Option<ProvenancedPayload<P>>),
    /// The reconstruction is over.
    Finished(Result<FullBlock<F, S>, Rejection<T>>),
}

impl<P, F, S> View for ReconstructStage<P, F, S> {
    type V = ReconstructStage<P, F, S, Seq<char>>;

    open spec fn view(&self) -> ReconstructStage<P, F, S, Seq<char>> {
        match self {
            ReconstructStage::DefaultPayload(epoch) => ReconstructStage::DefaultPayload(*epoch),
            ReconstructStage::CachedPayload(root) => ReconstructStage::CachedPayload(*root),
            ReconstructStage::LogLateBlock => ReconstructStage::LogLateBlock,
            ReconstructStage::ProposeBlinded => ReconstructStage::ProposeBlinded,
            ReconstructStage::AddPayload(payload) => ReconstructStage::AddPayload(*payload),
            ReconstructStage::Finished(result) => ReconstructStage::Finished(result_view(*result)),
        }
    }
}

/// What came of an action.
#[derive(PartialEq, Eq, Debug)]
pub enum ReconstructEvent<P, F, T = String> {
    /// The empty payload, or a description of why there is none.
    DefaultPayload(Result<P, T>),
    /// The payload that was looked up, if it was found.
    CachedPayload(Option<P>),
    /// An action that reports nothing has been carried out.
    Completed,
    /// The payload that the builder revealed, or a description of why it did not.
    Proposed(Result<P, T>),
    /// The assembled block, unless the payload does not fit it.
    Assembled(Option<SignedBeaconBlock<F>>),
}

impl<P, F> View for ReconstructEvent<P, F> {
    type V = ReconstructEvent<P, F, Seq<char>>;

    open spec fn view(&self) -> ReconstructEvent<P, F, Seq<char>> {
        match self {
            ReconstructEvent::DefaultPayload(result) => ReconstructEvent::DefaultPayload(
                result_view(*result),
            ),
            ReconstructEvent::CachedPayload(payload) => ReconstructEvent::CachedPayload(*payload),
            ReconstructEvent::Completed => ReconstructEvent::Completed,
            ReconstructEvent::Proposed(result) => ReconstructEvent::Proposed(result_view(*result)),
            ReconstructEvent::Assembled(block) => ReconstructEvent::Assembled(*block),
        }
    }
}

/// What has to be done next.
#[derive(PartialEq, Eq, Debug)]
pub enum ReconstructAction<'a, B, S, P> {
    /// Make an empty payload for the fork at this epoch.
    DefaultPayload(u64),
    /// Look up the payload whose header has this root.
    CachedPayload(Hash256),
    /// Log whether the block, with this root, is late.
    LogLateBlock(&'a BlindedBeaconBlock<B>, Hash256, Provenance),
    /// Propose what the client submitted, a block with this root, to the builder.
    ProposeBlinded(Hash256, &'a SignedBlockContents<BlindedBeaconBlock<B>, S>),
    /// Assemble the block and the payload, if it has one.
    AddPayload(&'a BlindedBeaconBlock<B>, Option<&'a P>),
    /// Nothing: the reconstruction is over.
    Return,
}

/// The epoch that a slot belongs to.
pub open spec fn epoch_of(slot: u64, slots_per_epoch: u64) -> u64 {
    slot / slots_per_epoch
}

/// The stage that a reconstruction starts in. A block without a payload, from before there were
/// any, is assembled as it is.
pub open spec fn starts_in<B, P, F, S>(
    block: BlindedBeaconBlock<B>,
    has_execution_layer: bool,
    slots_per_epoch: u64,
    stage: ReconstructStage<P, F, S, Seq<char>>,
) -> bool {
    match block.payload_header {
        None => stage == ReconstructStage::<P, F, S, Seq<char>>::AddPayload(None),
        Some(header) => if !has_execution_layer {
            stage == ReconstructStage::<P, F, S, Seq<char>>::Finished(
                Err(Rejection::ServerError("Missing execution layer"@)),
            )
        } else if header.block_hash.is_zero() {
            stage == ReconstructStage::<P, F, S, Seq<char>>::DefaultPayload(
                epoch_of(block.slot, slots_per_epoch),
            )
        } else {
            stage matches ReconstructStage::CachedPayload(root) && root.bytes@
                == header.root_bytes()
        },
    }
}

/// The stage in which a payload is put into the block.
pub open spec fn with_payload<P, F, S>(payload: ProvenancedPayload<P>) -> ReconstructStage<
    P,
    F,
    S,
    Seq<char>,
> {
    ReconstructStage::AddPayload(Some(payload))
}

/// The stage at which a reconstruction fails for the server's fault.
pub open spec fn failed<P, F, S>(text: Seq<char>) -> ReconstructStage<P, F, S, Seq<char>> {
    ReconstructStage::Finished(Err(Rejection::ServerError(text)))
}

/// The full block, without any blobs. A block without a payload is considered locally built.
pub open spec fn assembled<P, F, S>(
    payload: Option<ProvenancedPayload<P>>,
    block: SignedBeaconBlock<F>,
) -> FullBlock<F, S> {
    match payload {
        Some(ProvenancedPayload::Builder(_)) => ProvenancedBlock::Builder(
            SignedBlockContents::Block(block),
        ),
        _ => ProvenancedBlock::Local(SignedBlockContents::Block(block)),
    }
}

/// The stage after an event. An event that does not answer the pending action changes nothing.
pub open spec fn next_stage<P, F, S>(
    stage: ReconstructStage<P, F, S, Seq<char>>,
    event: ReconstructEvent<P, F, Seq<char>>,
) -> ReconstructStage<P, F, S, Seq<char>> {
    match (stage, event) {
        (ReconstructStage::DefaultPayload(_), ReconstructEvent::DefaultPayload(result)) => {
            match result {
                Ok(payload) => with_payload(ProvenancedPayload::Local(payload)),
                Err(text) => failed("Default payload construction error: "@ + text),
            }
        },
        (ReconstructStage::CachedPayload(_), ReconstructEvent::CachedPayload(cached)) => {
            match cached {
                Some(payload) => with_payload(ProvenancedPayload::Local(payload)),
                None => ReconstructStage::LogLateBlock,
            }
        },
        (ReconstructStage::LogLateBlock, ReconstructEvent::Completed) => {
            ReconstructStage::ProposeBlinded
        },
        (ReconstructStage::ProposeBlinded, ReconstructEvent::Proposed(result)) => {
            match result {
                Ok(payload) => with_payload(ProvenancedPayload::Builder(payload)),
                Err(text) => failed("Blind block proposal failed: "@ + text),
            }
        },
        (ReconstructStage::AddPayload(payload), ReconstructEvent::Assembled(full_block)) => {
            match full_block {
                Some(block) => ReconstructStage::Finished(Ok(assembled(payload, block))),
                None => failed("Unable to add payload to block"@),
            }
        },
        _ => stage,
    }
}

/// A reconstruction in progress. Whoever runs it performs its pending action and reports what came
/// of it, until the reconstruction is over.
#[derive(PartialEq, Eq, Debug)]
pub struct ReconstructTask<B, S, P, F> {
    pub contents: SignedBlockContents<BlindedBeaconBlock<B>, S>,
    pub block_root: Hash256,
    pub stage: ReconstructStage<P, F, S>,
}

/// Deconstruct the given blinded block, and construct a full block. This attempts to use the
/// execution layer's payload cache, and if that misses, attempts a blind block proposal to
/// retrieve the full payload.
pub fn reconstruct_block<B, S, P, F>(
    has_execution_layer: bool,
    slots_per_epoch: u64,
    block_root: Hash256,
    block: SignedBlockContents<BlindedBeaconBlock<B>, S>,
) -> (task: ReconstructTask<B, S, P, F>)
    requires
        slots_per_epoch > 0,
        block.block().payload_header matches Some(header) ==> header.wf(),
    ensures
        task.contents == block,
        task.block_root == block_root,
        starts_in(block.block(), has_execution_layer, slots_per_epoch, task.stage@),
        task.stage matches ReconstructStage::CachedPayload(root) ==> {
            &&& block.block().payload_header matches Some(header)
            &&& forall|bytes: Seq<u8>|
                bytes.len() == 32 * header.field_roots@.len() && (forall|k: int, j: int|
                    0 <= k < header.field_roots@.len() && 0 <= j < 32 ==> bytes[32 * k + j]
                        == #[trigger] header.field_roots@[k].bytes@[j]) ==> root.bytes@
                    == #[trigger] merkle_root_of(bytes, header.field_roots@.len())
        },
{
    let blinded = block.signed_block();
    let stage = match &blinded.payload_header {
        None => ReconstructStage::AddPayload(None),
        Some(payload_header) => {
            if !has_execution_layer {
                ReconstructStage::Finished(
                    Err(Rejection::ServerError("Missing execution layer".to_owned())),
                )
            } else {
                let zero = Hash256::zero();
                proof {
                    if payload_header.block_hash.is_zero() {
                        assert(payload_header.block_hash.bytes =~= zero.bytes);
                    }
                }
                if payload_header.block_hash == zero {
                    ReconstructStage::DefaultPayload(blinded.slot / slots_per_epoch)
                } else {
                    ReconstructStage::CachedPayload(payload_header.tree_hash_root())
                }
            }
        },
    };
    ReconstructTask { contents: block, block_root, stage }
}

impl<B, S, P, F> ReconstructTask<B, S, P, F> {
    /// The action is the one that the stage calls for.
    pub open spec fn demands(self, action: ReconstructAction<B, S, P>) -> bool {
        match self.stage {
            ReconstructStage::DefaultPayload(epoch) => action == ReconstructAction::<
                B,
                S,
                P,
            >::DefaultPayload(epoch),
            ReconstructStage::CachedPayload(root) => action == ReconstructAction::<
                B,
                S,
                P,
            >::CachedPayload(root),
            ReconstructStage::LogLateBlock => {
                &&& action matches ReconstructAction::LogLateBlock(block, root, provenance)
                &&& *block == self.contents.block()
                &&& root == self.block_root
                &&& provenance == Provenance::Builder
            },
            ReconstructStage::ProposeBlinded => {
                &&& action matches ReconstructAction::ProposeBlinded(root, contents)
                &&& root == self.block_root
                &&& *contents == self.contents
            },
            ReconstructStage::AddPayload(payload) => {
                &&& action matches ReconstructAction::AddPayload(block, full_payload)
                &&& *block == self.contents.block()
                &&& match (payload, full_payload) {
                    (Some(ProvenancedPayload::Local(held)), Some(given)) => *given == held,
                    (Some(ProvenancedPayload::Builder(held)), Some(given)) => *given == held,
                    (None, None) => true,
                    _ => false,
                }
            },
            ReconstructStage::Finished(_) => action == ReconstructAction::<B, S, P>::Return,
        }
    }

    /// What has to be done next.
    pub fn pending(&self) -> (action: ReconstructAction<'_, B, S, P>)
        ensures
            self.demands(action),
    {
        match &self.stage {
            ReconstructStage::DefaultPayload(epoch) => ReconstructAction::DefaultPayload(*epoch),
            ReconstructStage::CachedPayload(root) => ReconstructAction::CachedPayload(*root),
            ReconstructStage::LogLateBlock => ReconstructAction::LogLateBlock(
                self.contents.signed_block(),
                self.block_root,
                Provenance::Builder,
            ),
            ReconstructStage::ProposeBlinded => ReconstructAction::ProposeBlinded(
                self.block_root,
                &self.contents,
            ),
            ReconstructStage::AddPayload(payload) => {
                let full_payload = match payload {
                    Some(ProvenancedPayload::Local(payload)) => Some(payload),
                    Some(ProvenancedPayload::Builder(payload)) => Some(payload),
                    None => None,
                };
                ReconstructAction::AddPayload(self.contents.signed_block(), full_payload)
            },
            ReconstructStage::Finished(_) => ReconstructAction::Return,
        }
    }

    /// Moves on after an event.
    pub fn step(self, event: ReconstructEvent<P, F>) -> (r: Self)
        ensures
            r.contents == self.contents,
            r.block_root == self.block_root,
            r.stage@ == next_stage(self.stage@, event@),
    {
        let ReconstructTask { contents, block_root, stage } = self;
        let stage = match (stage, event) {
            (ReconstructStage::DefaultPayload(_), ReconstructEvent::DefaultPayload(result)) => {
                match result {
                    Ok(payload) => ReconstructStage::AddPayload(
                        Some(ProvenancedPayload::Local(payload)),
                    ),
                    Err(text) => server_error("Default payload construction error: ", &text),
                }
            },
            (ReconstructStage::CachedPayload(_), ReconstructEvent::CachedPayload(cached)) => {
                match cached {
                    Some(payload) => ReconstructStage::AddPayload(
                        Some(ProvenancedPayload::Local(payload)),
                    ),
                    None => ReconstructStage::LogLateBlock,
                }
            },
            (ReconstructStage::LogLateBlock, ReconstructEvent::Completed) => {
                ReconstructStage::ProposeBlinded
            },
            (ReconstructStage::ProposeBlinded, ReconstructEvent::Proposed(result)) => {
                match result {
                    Ok(payload) => ReconstructStage::AddPayload(
                        Some(ProvenancedPayload::Builder(payload)),
                    ),
                    Err(text) => server_error("Blind block proposal failed: ", &text),
                }
            },
            (ReconstructStage::AddPayload(payload), ReconstructEvent::Assembled(full_block)) => {
                match full_block {
                    Some(block) => {
                        let contents = SignedBlockContents::Block(block);
                        ReconstructStage::Finished(
                            Ok(
                                match payload {
                                    Some(ProvenancedPayload::Builder(_)) => {
                                        ProvenancedBlock::builder(contents)
                                    },
                                    _ => ProvenancedBlock::local(contents),
                                },
                            ),
                        )
                    },
                    None => ReconstructStage::Finished(
                        Err(Rejection::ServerError("Unable to add payload to block".to_owned())),
                    ),
                }
            },
            (stage, _) => stage,
        };
        ReconstructTask { contents, block_root, stage }
    }

    /// The full block, or the answer to the request if there is none, once that is known.
    pub fn into_result(self) -> (r: Option<Result<FullBlock<F, S>, Rejection>>)
        ensures
            match self.stage {
                ReconstructStage::Finished(result) => r == Some(result),
                _ => r is None,
            },
    {
        match self.stage {
            ReconstructStage::Finished(result) => Some(result),
            _ => None,
        }
    }
}

/// The end of a reconstruction that failed for the server's fault.
fn server_error<P, F, S>(what: &str, text: &String) -> (stage: ReconstructStage<P, F, S>)
    ensures
        stage@ == failed::<P, F, S>(what@ + text@),
{
    let mut msg = what.to_owned();
    msg.append(text.as_str());
    ReconstructStage::Finished(Err(Rejection::ServerError(msg)))
}

} // verus!
