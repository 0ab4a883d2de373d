//! The parts of `casper_hashing` that the acquisition of chunked execution
//! results relies on: digests and chunks carrying an indexed Merkle proof.
use casper_hashing::{ChunkWithProof, Digest};
use vstd::prelude::*;

verus! {

#[verifier::external_type_specification]
#[verifier::external_body]
pub struct ExDigest(Digest);

#[verifier::external_type_specification]
#[verifier::external_body]
pub struct ExChunkWithProof(ChunkWithProof);

/// The index that the Merkle proof of a chunk states for it
/// (`chunk.proof().index()`).
pub uninterp spec fn proof_index(chunk: ChunkWithProof) -> u64;

/// The total number of chunks that the Merkle proof of a chunk states
/// (`chunk.proof().count()`).
pub uninterp spec fn proof_count(chunk: ChunkWithProof) -> u64;

/// The root hash that the Merkle proof of a chunk leads to
/// (`chunk.proof().root_hash()`).
pub uninterp spec fn proof_root_hash(chunk: ChunkWithProof) -> Digest;

/// The bytes that a chunk carries (`chunk.chunk()`).
pub uninterp spec fn chunk_bytes(chunk: ChunkWithProof) -> Seq<u8>;

/// `IndexedMerkleProof::index` on the proof of `chunk`: the field that the
/// proof was built or decoded with, returned as it is.
#[verifier::external_body]
pub(crate) fn chunk_index(chunk: &ChunkWithProof) -> (index: u64)
    ensures
        index == proof_index(*chunk),
{
    chunk.proof().index()
}

/// `IndexedMerkleProof::count` on the proof of `chunk`: the field that the
/// proof was built or decoded with, returned as it is.
#[verifier::external_body]
pub(crate) fn chunk_count(chunk: &ChunkWithProof) -> (count: u64)
    ensures
        count == proof_count(*chunk),
{
    chunk.proof().count()
}

/// `IndexedMerkleProof::root_hash` on the proof of `chunk`: the Merkle root
/// computed from the proof's digests, its index and its count. It depends on
/// the chunk alone (the proof caches it once computed).
#[verifier::external_body]
pub(crate) fn chunk_root_hash(chunk: &ChunkWithProof) -> (root: Digest)
    ensures
        root == proof_root_hash(*chunk),
{
    chunk.proof().root_hash()
}

/// `ChunkWithProof::chunk`: the bytes of the chunk, borrowed.
#[verifier::external_body]
pub(crate) fn chunk_data(chunk: &ChunkWithProof) -> (data: &[u8])
    ensures
        data@ == chunk_bytes(*chunk),
{
    chunk.chunk()
}

/// `==` on two digests, that is the derived `PartialEq` of `Digest`, which
/// compares the 32 bytes that make up the whole value: it holds exactly when
/// the two digests are the same value.
#[verifier::external_body]
pub(crate) fn digests_equal(a: &Digest, b: &Digest) -> (equal: bool)
    ensures
        equal == (*a == *b),
{
    *a == *b
}

} // verus!
