use casper_hashing::{ChunkWithProof, Digest};
use casper_types::bytesrepr::{self, Bytes, ToBytes};
use casper_types::{ExecutionEffect, ExecutionResult, U512};

use execution_results::execution_results_acquisition::{
    ExecutionResultsAcquisition, ExecutionResultsRootHash,
};
use execution_results::types::{
    BlockExecutionResultsOrChunk, BlockExecutionResultsOrChunkId, BlockHash, ValueOrChunk,
};

fn block_hash() -> BlockHash {
    BlockHash(Digest::from([7u8; 32]))
}

fn sample_results() -> Vec<ExecutionResult> {
    vec![
        ExecutionResult::Success {
            effect: ExecutionEffect::default(),
            transfers: vec![],
            cost: U512::from(7u64),
        },
        ExecutionResult::Failure {
            effect: ExecutionEffect::default(),
            transfers: vec![],
            cost: U512::from(3u64),
            error_message: "out of gas".to_string(),
        },
    ]
}

/// A chunk whose proof states `index` and `count`, carrying `data`.
fn crafted_chunk(index: u64, count: u64, data: Vec<u8>) -> ChunkWithProof {
    let mut buf = index.to_bytes().unwrap();
    buf.extend(count.to_bytes().unwrap());
    buf.extend(vec![Digest::from([3u8; 32])].to_bytes().unwrap());
    buf.extend(Bytes::from(data).to_bytes().unwrap());
    bytesrepr::deserialize(buf).unwrap()
}

fn chunk_message(chunk: ChunkWithProof) -> BlockExecutionResultsOrChunk {
    BlockExecutionResultsOrChunk::Contemporary {
        block_hash: block_hash(),
        value: ValueOrChunk::ChunkWithProof(chunk),
    }
}

fn requested_index(id: &BlockExecutionResultsOrChunkId) -> u64 {
    id.chunk_index()
}

#[test]
fn fresh_acquisition_needs_nothing_before_a_count_is_known() {
    let acq = ExecutionResultsAcquisition::new(block_hash(), ExecutionResultsRootHash::Legacy);
    assert!(acq.needs_value_or_chunk().is_none());
    assert_eq!(acq.missing_chunk(), None);
    assert_eq!(acq.serialized_chunks(), None);
}

#[test]
fn whole_results_are_handed_back_unchanged() {
    let mut acq = ExecutionResultsAcquisition::new(
        block_hash(),
        ExecutionResultsRootHash::Known(Digest::from([1u8; 32])),
    );
    let results = sample_results();
    let got = acq.apply_block_execution_results_or_chunk(BlockExecutionResultsOrChunk::Legacy {
        block_hash: block_hash(),
        value: ValueOrChunk::Value(results.clone()),
    });
    assert_eq!(got, Some(results));
    assert!(acq.needs_value_or_chunk().is_none());
}

#[test]
fn single_chunk_with_matching_root_is_decoded() {
    let results = sample_results();
    let bytes = results.to_bytes().unwrap();
    let chunk = ChunkWithProof::new(&bytes, 0).unwrap();
    let root = chunk.proof().root_hash();
    let mut acq =
        ExecutionResultsAcquisition::new(block_hash(), ExecutionResultsRootHash::Known(root));
    let got = acq.apply_block_execution_results_or_chunk(chunk_message(chunk));
    assert_eq!(got, Some(results));
    assert!(acq.needs_value_or_chunk().is_none());
    assert_eq!(acq.serialized_chunks(), Some(bytes));
    let copy = acq.clone();
    assert!(copy == acq);
    assert!(ExecutionResultsRootHash::Known(root) == ExecutionResultsRootHash::Known(root));
    assert!(ExecutionResultsRootHash::Known(root) != ExecutionResultsRootHash::Legacy);
}

#[test]
fn legacy_acquisition_accepts_any_root() {
    let results = sample_results();
    let chunk = ChunkWithProof::new(&results.to_bytes().unwrap(), 0).unwrap();
    let mut acq = ExecutionResultsAcquisition::new(block_hash(), ExecutionResultsRootHash::Legacy);
    assert_eq!(acq.consume_chunk(chunk), Some(results));
}

#[test]
fn chunk_with_other_root_is_refused_but_its_count_is_kept() {
    let results = sample_results();
    let chunk = ChunkWithProof::new(&results.to_bytes().unwrap(), 0).unwrap();
    let mut acq = ExecutionResultsAcquisition::new(
        block_hash(),
        ExecutionResultsRootHash::Known(Digest::from([9u8; 32])),
    );
    assert_eq!(acq.consume_chunk(chunk), None);
    let id = acq.needs_value_or_chunk().expect("the chunk at 0 is missing");
    assert_eq!(id.chunk_index(), 0);
    assert!(!id.is_legacy());
    assert_eq!(acq.missing_chunk(), Some(0));
    assert_eq!(acq.serialized_chunks(), Some(vec![]));
}

#[test]
fn legacy_acquisition_asks_for_first_missing_chunk_in_legacy_form() {
    let results = sample_results();
    let bytes = results.to_bytes().unwrap();
    let mut acq = ExecutionResultsAcquisition::new(block_hash(), ExecutionResultsRootHash::Legacy);
    // The chunk at 5 of 7 holds the whole encoding, so the assembly decodes.
    assert_eq!(acq.consume_chunk(crafted_chunk(5, 7, bytes.clone())), Some(results));
    assert_eq!(acq.missing_chunk(), Some(0));
    let id = acq.needs_value_or_chunk().expect("chunks are missing");
    assert!(id.is_legacy());
    assert_eq!(requested_index(&id), 0);
    assert_eq!(acq.serialized_chunks(), Some(bytes));
}

#[test]
fn contemporary_acquisition_asks_in_contemporary_form() {
    let results = sample_results();
    let chunk = crafted_chunk(0, 3, results.to_bytes().unwrap());
    let root = chunk.proof().root_hash();
    let mut acq =
        ExecutionResultsAcquisition::new(block_hash(), ExecutionResultsRootHash::Known(root));
    assert_eq!(acq.consume_chunk(chunk), Some(results));
    let id = acq.needs_value_or_chunk().expect("chunks are missing");
    assert!(!id.is_legacy());
    assert_eq!(id.chunk_index(), 1);
}

#[test]
fn chunk_with_other_count_is_refused() {
    let results = sample_results();
    let bytes = results.to_bytes().unwrap();
    let mut acq = ExecutionResultsAcquisition::new(block_hash(), ExecutionResultsRootHash::Legacy);
    assert_eq!(acq.consume_chunk(crafted_chunk(5, 7, bytes.clone())), Some(results));
    let other = ChunkWithProof::new(&bytes, 0).unwrap();
    assert_eq!(acq.consume_chunk(other), None);
    // Nothing was stored at 0.
    assert_eq!(acq.missing_chunk(), Some(0));
    assert_eq!(acq.serialized_chunks(), Some(bytes));
}

#[test]
fn undecodable_bytes_drop_every_chunk() {
    let results = sample_results();
    let bytes = results.to_bytes().unwrap();
    let mut acq = ExecutionResultsAcquisition::new(block_hash(), ExecutionResultsRootHash::Legacy);
    assert_eq!(acq.consume_chunk(crafted_chunk(5, 7, bytes)), Some(sample_results()));
    // A chunk at 6 adds bytes after the encoding: decoding now fails.
    assert_eq!(acq.consume_chunk(crafted_chunk(6, 7, vec![1, 2, 3])), None);
    assert!(acq.needs_value_or_chunk().is_none());
    assert_eq!(acq.missing_chunk(), None);
    assert_eq!(acq.serialized_chunks(), None);
}

#[test]
fn garbage_single_chunk_is_not_decoded() {
    let chunk = ChunkWithProof::new(&[1u8, 2, 3], 0).unwrap();
    let mut acq = ExecutionResultsAcquisition::new(block_hash(), ExecutionResultsRootHash::Legacy);
    assert_eq!(acq.consume_chunk(chunk), None);
    assert!(acq.needs_value_or_chunk().is_none());
}

#[test]
fn chunks_are_assembled_in_index_order() {
    let mut acq = ExecutionResultsAcquisition::new(block_hash(), ExecutionResultsRootHash::Legacy);
    assert!(acq.check_chunk_header(4, &Digest::from([0u8; 32])));
    assert_eq!(acq.serialized_chunks(), Some(vec![]));
    // A header with another count is refused.
    assert!(!acq.check_chunk_header(5, &Digest::from([0u8; 32])));
    assert_eq!(acq.missing_chunk(), Some(0));
}

#[test]
fn header_check_compares_root_hash() {
    let root = Digest::from([4u8; 32]);
    let mut acq =
        ExecutionResultsAcquisition::new(block_hash(), ExecutionResultsRootHash::Known(root));
    assert!(!acq.check_chunk_header(2, &Digest::from([5u8; 32])));
    assert!(acq.check_chunk_header(2, &root));
    assert_eq!(acq.missing_chunk(), Some(0));
}

#[test]
fn decoded_outcome_is_applied() {
    let mut acq = ExecutionResultsAcquisition::new(block_hash(), ExecutionResultsRootHash::Legacy);
    // Without a known count nothing is handed out.
    assert_eq!(acq.apply_decoded(Ok(sample_results())), None);
    assert!(acq.check_chunk_header(2, &Digest::from([0u8; 32])));
    assert_eq!(acq.apply_decoded(Ok(sample_results())), Some(sample_results()));
    assert_eq!(acq.missing_chunk(), Some(0));
    assert_eq!(acq.apply_decoded(Err(bytesrepr::Error::Formatting)), None);
    assert_eq!(acq.missing_chunk(), None);
}

#[test]
fn assemble_without_count_gives_nothing() {
    let mut acq = ExecutionResultsAcquisition::new(block_hash(), ExecutionResultsRootHash::Legacy);
    assert_eq!(acq.assemble_chunks(), None);
}

#[test]
fn root_hash_legacy_flag() {
    assert!(ExecutionResultsRootHash::Legacy.is_legacy());
    assert!(!ExecutionResultsRootHash::Known(Digest::from([0u8; 32])).is_legacy());
}

#[test]
fn chunk_ids_keep_their_form() {
    let legacy = BlockExecutionResultsOrChunkId::legacy(block_hash());
    assert!(legacy.is_legacy());
    assert_eq!(legacy.chunk_index(), 0);
    let next = legacy.next_chunk(4);
    assert!(next.is_legacy());
    assert_eq!(next.chunk_index(), 4);
    let contemporary = BlockExecutionResultsOrChunkId::new(block_hash()).next_chunk(9);
    assert!(!contemporary.is_legacy());
    assert_eq!(contemporary.chunk_index(), 9);
}

#[test]
fn partial_assembly_of_a_large_encoding_drops_the_chunks() {
    let results = vec![ExecutionResult::Failure {
        effect: ExecutionEffect::default(),
        transfers: vec![],
        cost: U512::from(1u64),
        error_message: "x".repeat(9 * 1024 * 1024),
    }];
    let bytes = results.to_bytes().unwrap();
    let first = ChunkWithProof::new(&bytes, 0).unwrap();
    let second = ChunkWithProof::new(&bytes, 1).unwrap();
    assert_eq!(first.proof().count(), 2);
    let root = first.proof().root_hash();
    let mut acq =
        ExecutionResultsAcquisition::new(block_hash(), ExecutionResultsRootHash::Known(root));
    // With only the first chunk held, the assembled bytes are cut short and
    // fail to decode: every chunk and the count are dropped.
    assert_eq!(acq.consume_chunk(first), None);
    assert!(acq.needs_value_or_chunk().is_none());
    // The same happens with the second chunk alone.
    assert_eq!(acq.consume_chunk(second), None);
    assert!(acq.needs_value_or_chunk().is_none());
}
