//! What running one transaction yields, and the ways in which it can fail.

use vstd::prelude::*;
use crate::transaction::ExecutionPath;

verus! {

/// The token in which a fee is charged.
#[derive(Clone, Copy, Debug, PartialEq, Eq, Structural)]
pub enum FeeType {
    Eth,
    Strk,
}

/// An amount of computation gas and an amount of data-availability gas.
#[derive(Clone, Copy, Debug, PartialEq, Eq, Structural)]
pub struct GasVector {
    pub l1_gas: u128,
    pub l1_data_gas: u128,
}

/// The resources that an execution used.
#[derive(Clone, Copy, Debug, PartialEq, Eq, Structural)]
pub struct ResourceUsage {
    pub n_steps: u64,
    pub n_memory_holes: u64,
    pub l1_gas_usage: u64,
    pub l1_blob_gas_usage: u64,
}

/// The result of a transaction that ran: to completion, or up to a charged revert.
#[derive(Clone, Debug, PartialEq, Eq)]
pub struct ExecutionInfo {
    /// The fee that was charged.
    pub actual_fee: u128,
    /// The data-availability gas that was used.
    pub da_gas: GasVector,
    /// The resources that were used.
    pub actual_resources: ResourceUsage,
    /// Why the call was reverted, if it was.
    pub revert_error: Option<String>,
}

impl ExecutionInfo {
    /// Whether the transaction was reverted and charged.
    pub fn is_reverted(&self) -> (reverted: bool)
        ensures
            reverted == self.revert_error.is_some(),
    {
        self.revert_error.is_some()
    }
}

/// Why the execution engine could not finish a contract call.
#[derive(Clone, Copy, Debug, PartialEq, Eq, Structural)]
pub enum FailureKind {
    /// The called entry point does not exist.
    EntryPointNotFound,
    /// The step budget ran out.
    StepLimitExceeded,
    /// The virtual machine trapped.
    VmTrap,
}

/// A hard failure: the transaction leaves no state behind and is not charged.
#[derive(Clone, Debug, PartialEq, Eq)]
pub enum ExecutionError {
    /// A signature, nonce or fee-bound check failed before execution began.
    ValidationFailed(String),
    /// The claimed compiled-class hash is not the hash of the class payload.
    CompiledClassHashMismatch,
    /// The contract call failed and the transaction cannot be reverted.
    CallFailed(FailureKind, String),
}

/// Why the resource-cost model could not price an execution.
#[derive(Clone, Copy, Debug, PartialEq, Eq, Structural)]
pub enum FeeError {
    /// The resources do not say how much L1 gas was used.
    MissingL1GasUsage,
    /// A resource was used for which the model holds no price.
    UnpricedResource,
}

/// Why a simulation or an estimate could not be produced.
#[derive(Clone, Debug, PartialEq, Eq)]
pub enum SimulationError {
    /// The transaction failed hard.
    ExecutionFailed(ExecutionError),
    /// The transaction was reverted where a revert cannot be accepted.
    Reverted(String),
    /// The transaction ran but could not be priced.
    FeeComputation(FeeError),
}

/// A failure that ended a batch, with the position of the transaction that caused it.
#[derive(Clone, Debug, PartialEq, Eq)]
pub struct BatchError {
    pub position: usize,
    pub error: SimulationError,
}

/// What the execution engine reports of a contract call that ran to its end.
#[derive(Clone, Copy, Debug, PartialEq, Eq, Structural)]
pub struct CallOutput {
    pub actual_resources: ResourceUsage,
    pub da_gas: GasVector,
}

/// What the execution engine reports of a contract call that failed.
#[derive(Clone, Debug, PartialEq, Eq)]
pub struct CallFailure {
    pub kind: FailureKind,
    pub reason: String,
    /// The resources used up to the failure.
    pub actual_resources: ResourceUsage,
    /// The data-availability gas used up to the failure.
    pub da_gas: GasVector,
}

/// The result of a transaction whose validation and fee deduction succeeded, given how its
/// contract call ended: a failed call is a charged revert on the revertible path and a
/// hard error on every other.
pub open spec fn settled(path: ExecutionPath, fee: u128, report: Result<CallOutput, CallFailure>)
    -> Result<ExecutionInfo, ExecutionError> {
    match report {
        Ok(output) => Ok(
            ExecutionInfo {
                actual_fee: fee,
                da_gas: output.da_gas,
                actual_resources: output.actual_resources,
                revert_error: None,
            },
        ),
        Err(failure) => if path == ExecutionPath::Revertible {
            Ok(
                ExecutionInfo {
                    actual_fee: fee,
                    da_gas: failure.da_gas,
                    actual_resources: failure.actual_resources,
                    revert_error: Some(failure.reason),
                },
            )
        } else {
            Err(ExecutionError::CallFailed(failure.kind, failure.reason))
        },
    }
}

/// Turns the end of a contract call into the result of its transaction.
pub fn settle_call(path: ExecutionPath, fee: u128, report: Result<CallOutput, CallFailure>) -> (result:
    Result<ExecutionInfo, ExecutionError>)
    ensures
        result == settled(path, fee, report),
{
    match report {
        Ok(output) => Ok(
            ExecutionInfo {
                actual_fee: fee,
                da_gas: output.da_gas,
                actual_resources: output.actual_resources,
                revert_error: None,
            },
        ),
        Err(failure) => {
            match path {
                ExecutionPath::Revertible => Ok(
                    ExecutionInfo {
                        actual_fee: fee,
                        da_gas: failure.da_gas,
                        actual_resources: failure.actual_resources,
                        revert_error: Some(failure.reason),
                    },
                ),
                _ => Err(ExecutionError::CallFailed(failure.kind, failure.reason)),
            }
        },
    }
}

} // verus!
