//! Acquisition of the execution results of one block, either whole or as a
//! set of chunks that each carry a Merkle proof of their place in the whole.
use std::collections::HashMap;

use casper_hashing::{ChunkWithProof, Digest};
use casper_types::ExecutionResult;
use vstd::prelude::*;

use crate::bytesrepr::{decoded_execution_results, deserialize_execution_results};
use crate::hashing::{
    chunk_bytes, chunk_count, chunk_data, chunk_index, chunk_root_hash, digests_equal,
    proof_count, proof_index, proof_root_hash,
};
use crate::types::{
    BlockExecutionResultsOrChunk, BlockExecutionResultsOrChunkId, BlockHash, ValueOrChunk,
};

verus! {

broadcast use vstd::std_specs::hash::group_hash_axioms;

/// The Merkle root that the execution results of a block must hash to, where
/// the block states one; legacy blocks state none.
#[derive(Clone, Copy, PartialEq, Eq, Debug)]
pub enum ExecutionResultsRootHash {
    Legacy,
    Known(Digest),
}

impl ExecutionResultsRootHash {
    pub fn is_legacy(&self) -> (legacy: bool)
        ensures
            legacy == (*self is Legacy),
    {
        match self {
            ExecutionResultsRootHash::Legacy => true,
            ExecutionResultsRootHash::Known(_) => false,
        }
    }
}

/// The abstract state of an acquisition: what is known of the block, the
/// chunks held so far, keyed by their index, and the number of chunks that
/// the first accepted chunk announced.
#[verifier::ext_equal]
pub struct AcquisitionState {
    pub block_hash: BlockHash,
    pub results_root_hash: ExecutionResultsRootHash,
    pub chunks: Map<u64, ChunkWithProof>,
    pub chunk_count: Option<u64>,
}

/// The view of an optional list of results as a sequence.
pub open spec fn results_view(results: Option<Vec<ExecutionResult>>) -> Option<Seq<ExecutionResult>> {
    match results {
        Some(v) => Some(v@),
        None => None,
    }
}

/// The concatenation, in index order, of the bytes of the chunks held at the
/// indices below `n`; an index with no chunk adds nothing.
pub open spec fn assembled_bytes(chunks: Map<u64, ChunkWithProof>, n: nat) -> Seq<u8>
    decreases n,
{
    if n == 0 {
        Seq::empty()
    } else {
        let i = (n - 1) as nat;
        assembled_bytes(chunks, i) + if chunks.contains_key(i as u64) {
            chunk_bytes(chunks[i as u64])
        } else {
            Seq::empty()
        }
    }
}

/// The number of chunks to look for: the announced count, or none before a
/// chunk was accepted.
pub open spec fn announced_count(chunk_count: Option<u64>) -> u64 {
    match chunk_count {
        Some(count) => count,
        None => 0,
    }
}

impl AcquisitionState {
    /// The state of a fresh acquisition.
    pub open spec fn initial(
        block_hash: BlockHash,
        results_root_hash: ExecutionResultsRootHash,
    ) -> AcquisitionState {
        AcquisitionState { block_hash, results_root_hash, chunks: Map::empty(), chunk_count: None }
    }

    /// What every reachable state satisfies: nothing is held before a count is
    /// known, and each chunk held sits at its own index, announced the known
    /// count and, where the block states a root hash, proves that root.
    pub open spec fn is_consistent(self) -> bool {
        &&& self.chunks.dom().finite()
        &&& self.chunk_count is None ==> self.chunks.dom().is_empty()
        &&& forall|k: u64| #[trigger]
            self.chunks.contains_key(k) ==> {
                &&& proof_index(self.chunks[k]) == k
                &&& self.chunk_count == Some(proof_count(self.chunks[k]))
                &&& self.results_root_hash matches ExecutionResultsRootHash::Known(root)
                    ==> proof_root_hash(self.chunks[k]) == root
            }
    }

    /// The check that a chunk's announced count and root hash undergo: the
    /// state afterwards, and whether the chunk passed. A count different
    /// from the known one is refused with the state unchanged; otherwise the
    /// count becomes known, and the chunk passes unless the block states a
    /// root hash that differs from the chunk's.
    pub open spec fn after_header(self, count: u64, root_hash: Digest) -> (AcquisitionState, bool) {
        if self.chunk_count is Some && self.chunk_count != Some(count) {
            (self, false)
        } else {
            let counted = AcquisitionState { chunk_count: Some(count), ..self };
            match self.results_root_hash {
                ExecutionResultsRootHash::Legacy => (counted, true),
                ExecutionResultsRootHash::Known(root) => (counted, root == root_hash),
            }
        }
    }

    /// The bytes that the chunks held make up, where a count is known.
    pub open spec fn serialized(self) -> Option<Seq<u8>> {
        match self.chunk_count {
            Some(count) => Some(assembled_bytes(self.chunks, count as nat)),
            None => None,
        }
    }

    /// The outcome of decoding the held bytes, given what decoding made of
    /// them: the results are handed out and the chunks kept; a failure drops
    /// every chunk and the count. Without a known count nothing happens.
    pub open spec fn after_decoding(self, decoded: Option<Seq<ExecutionResult>>) -> (
        AcquisitionState,
        Option<Seq<ExecutionResult>>,
    ) {
        if self.chunk_count is None {
            (self, None)
        } else {
            match decoded {
                Some(results) => (self, Some(results)),
                None => (
                    AcquisitionState::initial(self.block_hash, self.results_root_hash),
                    None,
                ),
            }
        }
    }

    /// Assembling the held chunks: the bytes are decoded and the outcome
    /// applied.
    pub open spec fn after_assembly(self) -> (AcquisitionState, Option<Seq<ExecutionResult>>) {
        match self.serialized() {
            Some(bytes) => self.after_decoding(decoded_execution_results(bytes)),
            None => (self, None),
        }
    }

    /// Taking in one chunk: its header is checked; a chunk that passes is
    /// stored at its index, replacing any held there, and the chunks are
    /// assembled.
    pub open spec fn after_chunk(self, chunk: ChunkWithProof) -> (
        AcquisitionState,
        Option<Seq<ExecutionResult>>,
    ) {
        let (checked, passed) = self.after_header(proof_count(chunk), proof_root_hash(chunk));
        if !passed {
            (checked, None)
        } else {
            AcquisitionState {
                chunks: checked.chunks.insert(proof_index(chunk), chunk),
                ..checked
            }.after_assembly()
        }
    }

    /// Every index below `n` holds a chunk.
    pub open spec fn holds_all_below(self, n: u64) -> bool {
        forall|i: u64| i < n ==> #[trigger] self.chunks.contains_key(i)
    }

    /// `index` is the first index below the announced count that holds no
    /// chunk.
    pub open spec fn is_first_missing(self, index: u64) -> bool {
        &&& index < announced_count(self.chunk_count)
        &&& !self.chunks.contains_key(index)
        &&& self.holds_all_below(index)
    }

    /// The request that asks this block's peers for the chunk at `index`.
    pub open spec fn request_for(self, index: u64) -> BlockExecutionResultsOrChunkId {
        match self.results_root_hash {
            ExecutionResultsRootHash::Legacy => BlockExecutionResultsOrChunkId::Legacy {
                chunk_index: index,
                block_hash: self.block_hash,
            },
            ExecutionResultsRootHash::Known(_) => BlockExecutionResultsOrChunkId::Contemporary {
                chunk_index: index,
                block_hash: self.block_hash,
            },
        }
    }
}

/// Every transition of the abstract state keeps it consistent: taking in any
/// chunk, and applying any outcome of decoding.
pub proof fn law_transitions_keep_consistency(
    state: AcquisitionState,
    chunk: ChunkWithProof,
    decoded: Option<Seq<ExecutionResult>>,
)
    requires
        state.is_consistent(),
    ensures
        state.after_chunk(chunk).0.is_consistent(),
        state.after_decoding(decoded).0.is_consistent(),
        state.after_assembly().0.is_consistent(),
{
    let (checked, passed) = state.after_header(proof_count(chunk), proof_root_hash(chunk));
    assert(checked.is_consistent());
    if passed {
        let stored = AcquisitionState {
            chunks: checked.chunks.insert(proof_index(chunk), chunk),
            ..checked
        };
        assert(stored.is_consistent());
    }
}

/// A chunk that announces a count other than the one already known is
/// refused, and leaves the acquisition as it was.
pub proof fn law_count_mismatch_is_refused(state: AcquisitionState, chunk: ChunkWithProof)
    requires
        state.chunk_count is Some,
        state.chunk_count != Some(proof_count(chunk)),
    ensures
        state.after_chunk(chunk) == (state, None::<Seq<ExecutionResult>>),
{
}

/// A chunk whose root hash differs from the one the block states is refused:
/// nothing is handed out and no chunk is stored, though its count becomes the
/// known one where none was known.
pub proof fn law_root_mismatch_is_refused(state: AcquisitionState, chunk: ChunkWithProof)
    requires
        state.chunk_count is None || state.chunk_count == Some(proof_count(chunk)),
        state.results_root_hash matches ExecutionResultsRootHash::Known(root)
            && root != proof_root_hash(chunk),
    ensures
        state.after_chunk(chunk).1 is None,
        state.after_chunk(chunk).0 == (AcquisitionState { chunk_count: Some(proof_count(chunk)), ..state }),
{
}

/// Bytes that fail to decode return the acquisition to the state of a fresh
/// one for the same block.
pub proof fn law_failed_decoding_restarts(state: AcquisitionState)
    requires
        state.chunk_count is Some,
    ensures
        state.after_decoding(None).0 == AcquisitionState::initial(
            state.block_hash,
            state.results_root_hash,
        ),
        state.after_decoding(None).1 is None,
{
}

/// Results that come in one single chunk are handed out as the decoding of
/// that chunk's bytes, as soon as the chunk is accepted.
pub proof fn law_single_chunk_delivers_its_decoding(state: AcquisitionState, chunk: ChunkWithProof)
    requires
        state.is_consistent(),
        proof_index(chunk) == 0,
        proof_count(chunk) == 1,
        state.chunk_count is None || state.chunk_count == Some(1u64),
        state.results_root_hash matches ExecutionResultsRootHash::Known(root) ==> root
            == proof_root_hash(chunk),
    ensures
        state.after_chunk(chunk).1 == decoded_execution_results(chunk_bytes(chunk)),
{
    let (checked, passed) = state.after_header(proof_count(chunk), proof_root_hash(chunk));
    assert(passed);
    let stored = AcquisitionState {
        chunks: checked.chunks.insert(0u64, chunk),
        ..checked
    };
    assert(stored.chunks.contains_key(0u64));
    assert(assembled_bytes(stored.chunks, 0) == Seq::<u8>::empty());
    assert(assembled_bytes(stored.chunks, 1) =~= chunk_bytes(chunk));
}

/// Chunks held at indices at or beyond `n` do not change the bytes
/// assembled from the indices below `n`.
pub proof fn law_assembly_ignores_chunks_beyond(
    chunks: Map<u64, ChunkWithProof>,
    index: u64,
    chunk: ChunkWithProof,
    n: nat,
)
    requires
        index >= n,
    ensures
        assembled_bytes(chunks.insert(index, chunk), n) == assembled_bytes(chunks, n),
    decreases n,
{
    if n > 0 {
        law_assembly_ignores_chunks_beyond(chunks, index, chunk, (n - 1) as nat);
        let i = (n - 1) as nat;
        assert(i as u64 != index);
        assert(chunks.insert(index, chunk).contains_key(i as u64) == chunks.contains_key(i as u64));
    }
}

/// Taking in again a chunk already held at its index changes no chunk: it is
/// the same as assembling what is held once more.
pub proof fn law_redelivered_chunk_reassembles(state: AcquisitionState, chunk: ChunkWithProof)
    requires
        state.is_consistent(),
        state.chunks.contains_key(proof_index(chunk)),
        state.chunks[proof_index(chunk)] == chunk,
    ensures
        state.after_chunk(chunk) == state.after_assembly(),
{
    let (checked, passed) = state.after_header(proof_count(chunk), proof_root_hash(chunk));
    assert(checked == state);
    assert(state.chunks.insert(proof_index(chunk), chunk) =~= state.chunks);
}

/// A request for a chunk names the block being acquired, whatever the root
/// hash, asks for exactly the given index, and takes the legacy form exactly
/// when the block states no root hash.
pub proof fn law_request_names_block_and_index(state: AcquisitionState, index: u64)
    ensures
        state.request_for(index).spec_block_hash() == state.block_hash,
        state.request_for(index).spec_chunk_index() == index,
        state.request_for(index) is Legacy <==> state.results_root_hash is Legacy,
{
}

/// There is at most one first missing index, so the chunk to ask for next is
/// determined by the state.
pub proof fn law_first_missing_is_unique(state: AcquisitionState, i: u64, j: u64)
    requires
        state.is_first_missing(i),
        state.is_first_missing(j),
    ensures
        i == j,
{
    if i < j {
        assert(state.chunks.contains_key(i));
    } else if j < i {
        assert(state.chunks.contains_key(j));
    }
}

/// The acquisition of the execution results of one block.
#[derive(PartialEq, Eq, Debug)]
pub struct ExecutionResultsAcquisition {
    block_hash: BlockHash,
    results_root_hash: ExecutionResultsRootHash,
    chunks: HashMap<u64, ChunkWithProof>,
    chunk_count: Option<u64>,
}

impl View for ExecutionResultsAcquisition {
    type V = AcquisitionState;

    closed spec fn view(&self) -> AcquisitionState {
        AcquisitionState {
            block_hash: self.block_hash,
            results_root_hash: self.results_root_hash,
            chunks: self.chunks@,
            chunk_count: self.chunk_count,
        }
    }
}

impl Clone for ExecutionResultsAcquisition {
    /// A copy of the acquisition, in the same state.
    fn clone(&self) -> (copy: Self)
        ensures
            copy@ == self@,
    {
        proof {
            use_type_invariant(self);
        }
        ExecutionResultsAcquisition {
            block_hash: self.block_hash,
            results_root_hash: self.results_root_hash,
            chunks: self.chunks.clone(),
            chunk_count: self.chunk_count,
        }
    }
}

impl ExecutionResultsAcquisition {
    /// Every acquisition satisfies the invariant of its abstract state.
    #[verifier::type_invariant]
    closed spec fn consistent(&self) -> bool {
        self@.is_consistent()
    }

    /// Starts the acquisition of the results of `block_hash`, which must hash
    /// to `results_root_hash` where the block states one.
    pub fn new(block_hash: BlockHash, results_root_hash: ExecutionResultsRootHash) -> (acq: Self)
        ensures
            acq@ == AcquisitionState::initial(block_hash, results_root_hash),
    {
        ExecutionResultsAcquisition {
            block_hash,
            results_root_hash,
            chunks: HashMap::new(),
            chunk_count: None,
        }
    }

    /// Takes in a peer's answer: whole results are handed back as they are,
    /// and a chunk is taken in as `consume_chunk` does.
    pub fn apply_block_execution_results_or_chunk(
        &mut self,
        block_execution_results_or_chunk: BlockExecutionResultsOrChunk,
    ) -> (results: Option<Vec<ExecutionResult>>)
        ensures
            ({
                let value = match block_execution_results_or_chunk {
                    BlockExecutionResultsOrChunk::Legacy { value, .. } => value,
                    BlockExecutionResultsOrChunk::Contemporary { value, .. } => value,
                };
                match value {
                    ValueOrChunk::Value(v) => final(self)@ == old(self)@ && results == Some(v),
                    ValueOrChunk::ChunkWithProof(chunk) => (final(self)@, results_view(results))
                        == old(self)@.after_chunk(chunk),
                }
            }),
    {
        let value = match block_execution_results_or_chunk {
            BlockExecutionResultsOrChunk::Legacy { block_hash: _, value } => value,
            BlockExecutionResultsOrChunk::Contemporary { block_hash: _, value } => value,
        };
        match value {
            ValueOrChunk::Value(execution_results) => Some(execution_results),
            ValueOrChunk::ChunkWithProof(chunk) => self.consume_chunk(chunk),
        }
    }

    /// Takes in one chunk: it is checked against the known count and root
    /// hash, stored at its index if it passes, and the chunks held are then
    /// assembled.
    pub fn consume_chunk(&mut self, chunk: ChunkWithProof) -> (results: Option<Vec<ExecutionResult>>)
        ensures
            (final(self)@, results_view(results)) == old(self)@.after_chunk(chunk),
    {
        proof {
            use_type_invariant(&*self);
        }
        let digest = chunk_root_hash(&chunk);
        let index = chunk_index(&chunk);
        let count = chunk_count(&chunk);
        if !self.check_chunk_header(count, &digest) {
            return None;
        }
        let ghost checked = self@;
        let mut chunks: HashMap<u64, ChunkWithProof> = HashMap::new();
        std::mem::swap(&mut chunks, &mut self.chunks);
        let _ = chunks.insert(index, chunk);
        self.chunks = chunks;
        assert(self@ =~= AcquisitionState {
            chunks: checked.chunks.insert(proof_index(chunk), chunk),
            ..checked
        });
        self.assemble_chunks()
    }

    /// The check of a chunk's announced `count` and `root_hash` (see
    /// `AcquisitionState::after_header`); returns whether the chunk passed.
    pub fn check_chunk_header(&mut self, count: u64, root_hash: &Digest) -> (passed: bool)
        ensures
            (final(self)@, passed) == old(self)@.after_header(count, *root_hash),
            passed ==> final(self)@.chunk_count == Some(count),
    {
        proof {
            use_type_invariant(&*self);
        }
        match self.chunk_count {
            None => {
                self.chunk_count = Some(count);
            },
            Some(existing_count) => {
                if existing_count != count {
                    return false;
                }
            },
        }
        match &self.results_root_hash {
            ExecutionResultsRootHash::Legacy => true,
            ExecutionResultsRootHash::Known(root) => digests_equal(root, root_hash),
        }
    }

    /// The request for the next chunk still missing, if any: the first index
    /// below the announced count that holds no chunk, asked for in the legacy
    /// form where the block states no root hash.
    pub fn needs_value_or_chunk(&self) -> (id: Option<BlockExecutionResultsOrChunkId>)
        ensures
            id is None <==> self@.holds_all_below(announced_count(self@.chunk_count)),
            id matches Some(id) ==> exists|index: u64|
                #[trigger] self@.is_first_missing(index) && id == self@.request_for(index),
            id matches Some(id) ==> {
                &&& id.spec_block_hash() == self@.block_hash
                &&& self@.is_first_missing(id.spec_chunk_index())
                &&& (id is Legacy <==> self@.results_root_hash is Legacy)
            },
    {
        let id = if self.results_root_hash.is_legacy() {
            BlockExecutionResultsOrChunkId::legacy(self.block_hash)
        } else {
            BlockExecutionResultsOrChunkId::new(self.block_hash)
        };
        match self.missing_chunk() {
            Some(missing_index) => {
                let next = id.next_chunk(missing_index);
                assert(self@.is_first_missing(missing_index));
                proof {
                    law_request_names_block_and_index(self@, missing_index);
                }
                Some(next)
            },
            None => None,
        }
    }

    /// The first index below the announced count that holds no chunk.
    pub fn missing_chunk(&self) -> (missing: Option<u64>)
        ensures
            missing is None <==> self@.holds_all_below(announced_count(self@.chunk_count)),
            missing matches Some(index) ==> self@.is_first_missing(index),
    {
        let count = match self.chunk_count {
            Some(count) => count,
            None => 0,
        };
        let mut idx: u64 = 0;
        while idx < count
            invariant
                idx <= count,
                count == announced_count(self@.chunk_count),
                self@.holds_all_below(idx),
            decreases count - idx,
        {
            if !self.chunks.contains_key(&idx) {
                assert(!self@.chunks.contains_key(idx));
                assert(!self@.holds_all_below(count));
                return Some(idx);
            }
            assert forall|i: u64| i < idx + 1 implies #[trigger] self@.chunks.contains_key(i) by {
                if i < idx {
                    assert(self@.chunks.contains_key(i));
                }
            }
            idx = idx + 1;
        }
        None
    }

    /// The bytes of the chunks held, concatenated in index order over the
    /// indices below the announced count; `None` before a count is known.
    pub fn serialized_chunks(&self) -> (serialized: Option<Vec<u8>>)
        ensures
            match serialized {
                Some(bytes) => self@.serialized() == Some(bytes@),
                None => self@.serialized() is None,
            },
    {
        let count = match self.chunk_count {
            Some(count) => count,
            None => return None,
        };
        let mut serialized: Vec<u8> = Vec::new();
        let mut index: u64 = 0;
        while index < count
            invariant
                index <= count,
                serialized@ == assembled_bytes(self@.chunks, index as nat),
            decreases count - index,
        {
            match self.chunks.get(&index) {
                Some(chunk) => {
                    let data = chunk_data(chunk);
                    let ghost before = serialized@;
                    let mut j: usize = 0;
                    while j < data.len()
                        invariant
                            j <= data@.len(),
                            serialized@ == before + data@.subrange(0, j as int),
                        decreases data@.len() - j,
                    {
                        serialized.push(data[j]);
                        assert(data@.subrange(0, j + 1) =~= data@.subrange(0, j as int).push(
                            data@[j as int],
                        ));
                        j = j + 1;
                    }
                    assert(data@.subrange(0, data@.len() as int) =~= data@);
                },
                None => {},
            }
            index = index + 1;
        }
        Some(serialized)
    }

    /// Applies what decoding made of the held bytes (see
    /// `AcquisitionState::after_decoding`): results are handed out; a failure
    /// drops every chunk and the count.
    pub fn apply_decoded(
        &mut self,
        decoded: Result<Vec<ExecutionResult>, casper_types::bytesrepr::Error>,
    ) -> (results: Option<Vec<ExecutionResult>>)
        ensures
            (final(self)@, results_view(results)) == old(self)@.after_decoding(
                match decoded {
                    Ok(v) => Some(v@),
                    Err(_) => None,
                },
            ),
    {
        if self.chunk_count.is_none() {
            return None;
        }
        match decoded {
            Ok(value) => Some(value),
            Err(_) => {
                self.chunks = HashMap::new();
                self.chunk_count = None;
                None
            },
        }
    }

    /// Assembles the chunks held and decodes them (see
    /// `AcquisitionState::after_assembly`).
    pub fn assemble_chunks(&mut self) -> (results: Option<Vec<ExecutionResult>>)
        ensures
            (final(self)@, results_view(results)) == old(self)@.after_assembly(),
    {
        let serialized = match self.serialized_chunks() {
            Some(serialized) => serialized,
            None => return None,
        };
        let decoded = deserialize_execution_results(serialized);
        self.apply_decoded(decoded)
    }
}

} // verus!
