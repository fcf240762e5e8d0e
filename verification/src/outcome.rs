//! How processing a block ends, and what a request is answered.
use vstd::prelude::*;

use crate::hash::Hash256;

verus! {

/// How thoroughly a block is checked before it is broadcast.
#[derive(Clone, Copy, PartialEq, Eq, Structural, Debug)]
pub enum BroadcastValidation {
    /// Gossip rules only.
    Gossip,
    /// Gossip and consensus rules.
    Consensus,
    /// Gossip and consensus rules, and that the proposer has not equivocated.
    ConsensusAndEquivocation,
}

/// How far the chain got with a block that it did not turn down.
#[derive(Clone, Copy, PartialEq, Eq, Debug)]
pub enum AvailabilityProcessingStatus {
    /// The block with this root was imported.
    Imported(Hash256),
    /// At this slot, parts of the block with this root are still missing.
    MissingComponents(u64, Hash256),
}

/// Why the chain turned a block down. `T` is text: a `String`, or its characters in a contract.
#[derive(PartialEq, Eq, Debug)]
pub enum BlockError<T = String> {
    /// The block could not be put on the network.
    UnableToPublish,
    /// Publishing the block would be a slashable equivocation.
    Slashable,
    /// The chain has the block already.
    BlockIsAlreadyKnown,
    /// Any other failure, by its description.
    Other(T),
}

impl View for BlockError {
    type V = BlockError<Seq<char>>;

    open spec fn view(&self) -> BlockError<Seq<char>> {
        match self {
            BlockError::UnableToPublish => BlockError::UnableToPublish,
            BlockError::Slashable => BlockError::Slashable,
            BlockError::BlockIsAlreadyKnown => BlockError::BlockIsAlreadyKnown,
            BlockError::Other(text) => BlockError::Other(text@),
        }
    }
}

/// The answer to a request that did not succeed. `T` is text: a `String`, or its characters in a
/// contract.
#[derive(PartialEq, Eq, Debug)]
pub enum Rejection<T = String> {
    /// The client is at fault.
    BadRequest(T),
    /// The server is at fault.
    ServerError(T),
    /// The block was broadcast but did not become part of the chain.
    BroadcastWithoutImport(T),
}

impl View for Rejection {
    type V = Rejection<Seq<char>>;

    open spec fn view(&self) -> Rejection<Seq<char>> {
        match self {
            Rejection::BadRequest(text) => Rejection::BadRequest(text@),
            Rejection::ServerError(text) => Rejection::ServerError(text@),
            Rejection::BroadcastWithoutImport(text) => Rejection::BroadcastWithoutImport(text@),
        }
    }
}

/// A result with its error seen through its view.
pub open spec fn result_view<A, E: View>(result: Result<A, E>) -> Result<A, E::V> {
    match result {
        Ok(value) => Ok(value),
        Err(error) => Err(error@),
    }
}

} // verus!
