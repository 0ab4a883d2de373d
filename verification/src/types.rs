//! Identifiers and messages of the block synchronizer that carry execution
//! results: block hashes, requests for results or one of their chunks, and the
//! answers to those requests.
use casper_hashing::{ChunkWithProof, Digest};
use casper_types::ExecutionResult;
use vstd::prelude::*;

verus! {

/// The hash of a block.
#[derive(Clone, Copy, PartialEq, Eq, Debug)]
pub struct BlockHash(pub Digest);

/// A request for the execution results of a block, or for one chunk of them
/// when they are too large to travel in one piece. A legacy request asks a
/// peer that does not know the Merkle root of the results.
#[derive(Clone, Copy, PartialEq, Eq, Debug)]
pub enum BlockExecutionResultsOrChunkId {
    Legacy { chunk_index: u64, block_hash: BlockHash },
    Contemporary { chunk_index: u64, block_hash: BlockHash },
}

impl BlockExecutionResultsOrChunkId {
    /// A legacy request for the first chunk of the results of `block_hash`.
    pub fn legacy(block_hash: BlockHash) -> (id: Self)
        ensures
            id == (BlockExecutionResultsOrChunkId::Legacy { chunk_index: 0, block_hash }),
    {
        BlockExecutionResultsOrChunkId::Legacy { chunk_index: 0, block_hash }
    }

    /// A request for the first chunk of the results of `block_hash`.
    pub fn new(block_hash: BlockHash) -> (id: Self)
        ensures
            id == (BlockExecutionResultsOrChunkId::Contemporary { chunk_index: 0, block_hash }),
    {
        BlockExecutionResultsOrChunkId::Contemporary { chunk_index: 0, block_hash }
    }

    /// The same request, asking for the chunk at `next_chunk` instead.
    pub fn next_chunk(&self, next_chunk: u64) -> (id: Self)
        ensures
            id == self.with_chunk_index(next_chunk),
    {
        match *self {
            BlockExecutionResultsOrChunkId::Legacy { block_hash, .. } => {
                BlockExecutionResultsOrChunkId::Legacy { chunk_index: next_chunk, block_hash }
            },
            BlockExecutionResultsOrChunkId::Contemporary { block_hash, .. } => {
                BlockExecutionResultsOrChunkId::Contemporary { chunk_index: next_chunk, block_hash }
            },
        }
    }

    /// The index of the chunk asked for.
    pub fn chunk_index(&self) -> (index: u64)
        ensures
            index == self.spec_chunk_index(),
    {
        match *self {
            BlockExecutionResultsOrChunkId::Legacy { chunk_index, .. } => chunk_index,
            BlockExecutionResultsOrChunkId::Contemporary { chunk_index, .. } => chunk_index,
        }
    }

    /// Whether this is a legacy request.
    pub fn is_legacy(&self) -> (legacy: bool)
        ensures
            legacy == (*self is Legacy),
    {
        match *self {
            BlockExecutionResultsOrChunkId::Legacy { .. } => true,
            BlockExecutionResultsOrChunkId::Contemporary { .. } => false,
        }
    }

    pub open spec fn spec_chunk_index(self) -> u64 {
        match self {
            BlockExecutionResultsOrChunkId::Legacy { chunk_index, .. } => chunk_index,
            BlockExecutionResultsOrChunkId::Contemporary { chunk_index, .. } => chunk_index,
        }
    }

    /// The block whose results the request asks for.
    pub open spec fn spec_block_hash(self) -> BlockHash {
        match self {
            BlockExecutionResultsOrChunkId::Legacy { block_hash, .. } => block_hash,
            BlockExecutionResultsOrChunkId::Contemporary { block_hash, .. } => block_hash,
        }
    }

    pub open spec fn with_chunk_index(self, chunk_index: u64) -> Self {
        match self {
            BlockExecutionResultsOrChunkId::Legacy { block_hash, .. } => {
                BlockExecutionResultsOrChunkId::Legacy { chunk_index, block_hash }
            },
            BlockExecutionResultsOrChunkId::Contemporary { block_hash, .. } => {
                BlockExecutionResultsOrChunkId::Contemporary { chunk_index, block_hash }
            },
        }
    }
}

/// A whole value, or one chunk of its encoding together with a Merkle proof.
pub enum ValueOrChunk<V> {
    Value(V),
    ChunkWithProof(ChunkWithProof),
}

/// A peer's answer to a `BlockExecutionResultsOrChunkId`.
pub enum BlockExecutionResultsOrChunk {
    Legacy { block_hash: BlockHash, value: ValueOrChunk<Vec<ExecutionResult>> },
    Contemporary { block_hash: BlockHash, value: ValueOrChunk<Vec<ExecutionResult>> },
}

} // verus!
