//! Verified logic of the casper node's acquisition of block execution results
//! (whole or in Merkle-proven chunks) and of the execution-engine test-support
//! utilities.
mod bytesrepr;
pub mod engine;
mod hashing;

pub mod execution_results_acquisition;
pub mod types;
pub mod utils;
pub mod wasm_paths;
