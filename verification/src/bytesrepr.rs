//! Decoding of execution results from their `casper_types::bytesrepr` encoding.
use casper_types::bytesrepr::{self, Error};
use casper_types::ExecutionResult;
use vstd::prelude::*;

verus! {

#[verifier::external_type_specification]
#[verifier::external_body]
pub struct ExExecutionResult(ExecutionResult);

#[verifier::external_type_specification]
#[verifier::external_body]
pub struct ExBytesreprError(Error);

/// What `bytesrepr::deserialize::<Vec<ExecutionResult>>` makes of `bytes`:
/// the decoded results, or `None` where it reports an error.
pub uninterp spec fn decoded_execution_results(bytes: Seq<u8>) -> Option<Seq<ExecutionResult>>;

/// `bytesrepr::deserialize::<Vec<ExecutionResult>>`: decodes a list of
/// execution results from `bytes`, which it must use up entirely. Its outcome
/// depends on the bytes alone.
#[verifier::external_body]
pub(crate) fn deserialize_execution_results(bytes: Vec<u8>) -> (decoded: Result<
    Vec<ExecutionResult>,
    Error,
>)
    ensures
        decoded is Ok <==> decoded_execution_results(bytes@) is Some,
        decoded matches Ok(results) ==> decoded_execution_results(bytes@) == Some(results@),
{
    bytesrepr::deserialize(bytes)
}

} // verus!
