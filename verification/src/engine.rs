//! The parts of `casper_execution_engine` and `casper_types` that the
//! test-support utilities read: execution results, their costs and errors,
//! and the transforms that an execution leaves behind.
use casper_execution_engine::shared::additive_map::AdditiveMap;
use casper_execution_engine::shared::transform::Transform;
use std::collections::BTreeMap;

use casper_types::account::Account;
use casper_types::system::auction::{Bid, EraInfo, UnbondingPurse, WithdrawPurse};
use casper_types::{
    CLValue, Contract, ContractPackage, ContractWasm, DeployInfo, Gas, Key, StoredValue, Transfer,
    U128, U256, U512,
};
use vstd::prelude::*;

verus! {

/// The result of executing a deploy in the execution engine.
pub type EngineExecutionResult = casper_execution_engine::core::engine_state::execution_result::ExecutionResult;

/// An error of the execution engine.
pub type EngineError = casper_execution_engine::core::engine_state::Error;

#[verifier::external_type_specification]
#[verifier::external_body]
pub struct ExEngineExecutionResult(
    casper_execution_engine::core::engine_state::execution_result::ExecutionResult,
);

#[verifier::external_type_specification]
#[verifier::external_body]
pub struct ExEngineError(casper_execution_engine::core::engine_state::Error);

#[verifier::external_type_specification]
#[verifier::external_body]
pub struct ExGas(Gas);

#[verifier::external_type_specification]
#[verifier::external_body]
pub struct ExKey(Key);

#[verifier::external_type_specification]
#[verifier::external_body]
pub struct ExTransform(Transform);

#[verifier::external_type_specification]
#[verifier::external_body]
pub struct ExAccount(Account);

#[verifier::external_type_specification]
#[verifier::external_body]
#[verifier::reject_recursive_types(K)]
#[verifier::reject_recursive_types(V)]
#[verifier::reject_recursive_types(S)]
pub struct ExAdditiveMap<K, V, S>(AdditiveMap<K, V, S>);

#[verifier::external_type_specification]
#[verifier::external_body]
pub struct ExStoredValue(StoredValue);

#[verifier::external_type_specification]
#[verifier::external_body]
pub struct ExU128(U128);

#[verifier::external_type_specification]
#[verifier::external_body]
pub struct ExU256(U256);

#[verifier::external_type_specification]
#[verifier::external_body]
pub struct ExU512(U512);

#[verifier::external_type_specification]
#[verifier::external_body]
pub struct ExCLValue(CLValue);

#[verifier::external_type_specification]
#[verifier::external_body]
pub struct ExContractWasm(ContractWasm);

#[verifier::external_type_specification]
#[verifier::external_body]
pub struct ExContract(Contract);

#[verifier::external_type_specification]
#[verifier::external_body]
pub struct ExContractPackage(ContractPackage);

#[verifier::external_type_specification]
#[verifier::external_body]
pub struct ExTransfer(Transfer);

#[verifier::external_type_specification]
#[verifier::external_body]
pub struct ExDeployInfo(DeployInfo);

#[verifier::external_type_specification]
#[verifier::external_body]
pub struct ExEraInfo(EraInfo);

#[verifier::external_type_specification]
#[verifier::external_body]
pub struct ExBid(Bid);

#[verifier::external_type_specification]
#[verifier::external_body]
pub struct ExWithdrawPurse(WithdrawPurse);

#[verifier::external_type_specification]
#[verifier::external_body]
pub struct ExUnbondingPurse(UnbondingPurse);

#[verifier::external_type_specification]
#[verifier::external_body]
pub struct ExTransformError(casper_execution_engine::shared::transform::Error);

/// The error a failed transform carries.
pub type TransformError = casper_execution_engine::shared::transform::Error;

/// A `Transform`, variant by variant, with its fields.
pub enum TransformVariant {
    Identity,
    Write(StoredValue),
    AddInt32(i32),
    AddUInt64(u64),
    AddUInt128(U128),
    AddUInt256(U256),
    AddUInt512(U512),
    AddKeys(BTreeMap<String, Key>),
    Failure(TransformError),
}

/// A `StoredValue`, variant by variant, with its fields.
pub enum StoredValueVariant {
    CLValue(CLValue),
    Account(Account),
    ContractWasm(ContractWasm),
    Contract(Contract),
    ContractPackage(ContractPackage),
    Transfer(Transfer),
    DeployInfo(DeployInfo),
    EraInfo(EraInfo),
    Bid(Box<Bid>),
    Withdraw(Vec<WithdrawPurse>),
    Unbonding(Vec<UnbondingPurse>),
}

/// The gas that an execution consumed (`ExecutionResult::cost`).
pub uninterp spec fn execution_cost(result: EngineExecutionResult) -> Gas;

/// Whether an execution failed before it had any effect
/// (`ExecutionResult::has_precondition_failure`).
pub uninterp spec fn is_precondition_failure(result: EngineExecutionResult) -> bool;

/// The error of a failed execution, `None` for a successful one
/// (`ExecutionResult::as_error`).
pub uninterp spec fn failure_error(result: EngineExecutionResult) -> Option<EngineError>;

/// The `Debug` rendering of an engine error (`format!("{:?}", error)`).
pub uninterp spec fn error_debug_text(error: EngineError) -> Seq<char>;

/// The transform recorded for `key` in `transforms`, if any
/// (`AdditiveMap::get`).
pub uninterp spec fn transform_at(transforms: AdditiveMap<Key, Transform>, key: Key) -> Option<
    Transform,
>;

/// The variant of a transform, with its field.
pub uninterp spec fn transform_variant_of(transform: Transform) -> TransformVariant;

/// The variant of a stored value, with its field.
pub uninterp spec fn stored_value_variant_of(value: StoredValue) -> StoredValueVariant;

/// `ExecutionResult::cost`: the gas recorded in either variant.
#[verifier::external_body]
pub(crate) fn result_cost(result: &EngineExecutionResult) -> (cost: Gas)
    ensures
        cost == execution_cost(*result),
{
    result.cost()
}

/// `ExecutionResult::has_precondition_failure`. By its source it holds only of
/// the `Failure` variant, the one of which `as_error` gives the error.
#[verifier::external_body]
pub(crate) fn result_has_precondition_failure(result: &EngineExecutionResult) -> (failed: bool)
    ensures
        failed == is_precondition_failure(*result),
        failed ==> failure_error(*result) is Some,
{
    result.has_precondition_failure()
}

/// `ExecutionResult::as_error`: the error of the `Failure` variant.
#[verifier::external_body]
pub(crate) fn result_error(result: &EngineExecutionResult) -> (error: Option<&EngineError>)
    ensures
        error is None <==> failure_error(*result) is None,
        error matches Some(e) ==> failure_error(*result) == Some(*e),
{
    result.as_error()
}

/// The derived `Debug` rendering of an engine error.
#[verifier::external_body]
pub(crate) fn error_text(error: &EngineError) -> (text: String)
    ensures
        text@ == error_debug_text(*error),
{
    format!("{:?}", error)
}

/// `AdditiveMap::get`: the transform recorded for `key`, handed out as a
/// copy (the derived `Clone` of `Transform`, field by field).
#[verifier::external_body]
pub(crate) fn transform_for(transforms: &AdditiveMap<Key, Transform>, key: &Key) -> (found: Option<
    Transform,
>)
    ensures
        found == transform_at(*transforms, *key),
{
    transforms.get(key).cloned()
}

/// Converts a `Transform` into the library's enum, one arm per variant,
/// moving the field.
#[verifier::external_body]
pub(crate) fn transform_variant(transform: Transform) -> (variant: TransformVariant)
    ensures
        variant == transform_variant_of(transform),
{
    match transform {
        Transform::Identity => TransformVariant::Identity,
        Transform::Write(value) => TransformVariant::Write(value),
        Transform::AddInt32(x) => TransformVariant::AddInt32(x),
        Transform::AddUInt64(x) => TransformVariant::AddUInt64(x),
        Transform::AddUInt128(x) => TransformVariant::AddUInt128(x),
        Transform::AddUInt256(x) => TransformVariant::AddUInt256(x),
        Transform::AddUInt512(x) => TransformVariant::AddUInt512(x),
        Transform::AddKeys(keys) => TransformVariant::AddKeys(keys),
        Transform::Failure(error) => TransformVariant::Failure(error),
    }
}

/// Converts a `StoredValue` into the library's enum, one arm per variant,
/// moving the field.
#[verifier::external_body]
pub(crate) fn stored_value_variant(value: StoredValue) -> (variant: StoredValueVariant)
    ensures
        variant == stored_value_variant_of(value),
{
    match value {
        StoredValue::CLValue(v) => StoredValueVariant::CLValue(v),
        StoredValue::Account(v) => StoredValueVariant::Account(v),
        StoredValue::ContractWasm(v) => StoredValueVariant::ContractWasm(v),
        StoredValue::Contract(v) => StoredValueVariant::Contract(v),
        StoredValue::ContractPackage(v) => StoredValueVariant::ContractPackage(v),
        StoredValue::Transfer(v) => StoredValueVariant::Transfer(v),
        StoredValue::DeployInfo(v) => StoredValueVariant::DeployInfo(v),
        StoredValue::EraInfo(v) => StoredValueVariant::EraInfo(v),
        StoredValue::Bid(v) => StoredValueVariant::Bid(v),
        StoredValue::Withdraw(v) => StoredValueVariant::Withdraw(v),
        StoredValue::Unbonding(v) => StoredValueVariant::Unbonding(v),
    }
}

} // verus!
