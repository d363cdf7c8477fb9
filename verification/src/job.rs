//! What each operation asks of the transactions of a batch, and what it makes of their
//! results.

use vstd::prelude::*;
use crate::execution::{
    ExecutionError, ExecutionInfo, FeeError, FeeType, GasVector, SimulationError,
};
use crate::fee::{effective_fee, estimate_of, from_tx_info_and_gas_price, FeeEstimate, GasPrices};
use crate::transaction::{dispatch_transaction, plan_of, ExecutionPlan, SimulationFlags, Transaction};

verus! {

/// The operations that a batch can be opened for.
#[derive(Clone, Copy, Debug, PartialEq, Eq, Structural)]
pub enum Operation {
    EstimateFee,
    SimulateTransactions,
    SimulateMessage,
    EstimateMessageFee,
    ReExecuteTransactions,
}

/// Whether a fee estimate is derived from a transaction's result, and from which minimum.
#[derive(Clone, Copy, Debug, PartialEq, Eq, Structural)]
pub enum Estimation {
    /// No estimate is derived.
    No,
    /// The estimate is raised to the transaction's minimal gas vector.
    WithMinimum,
    /// The estimate is derived without a minimum.
    WithoutMinimum,
}

/// How one transaction of a batch is run and what is kept of it.
#[derive(Clone, Copy, Debug, PartialEq, Eq, Structural)]
pub struct Job {
    pub plan: ExecutionPlan,
    /// Whether the transaction runs in a layer of its own.
    pub own_layer: bool,
    /// Whether the writes of that layer are reported.
    pub keep_diff: bool,
    pub estimation: Estimation,
    /// Whether a revert counts as a failure.
    pub revert_is_failure: bool,
    /// Whether a failure ends the batch.
    pub failure_is_fatal: bool,
    pub fee_type: FeeType,
}

/// What the resource-cost model says of one execution.
#[derive(Clone, Copy, Debug, PartialEq, Eq)]
pub struct Pricing {
    /// The fee for the resources that the execution used.
    pub priced_resources: Result<u128, FeeError>,
    /// The least gas that the transaction is billed for.
    pub minimal_gas: Result<GasVector, FeeError>,
}

/// The flags under which the history before a trace is replayed.
pub open spec fn replay_flags() -> SimulationFlags {
    SimulationFlags { validate: true, charge_fee: true }
}

/// The flags under which traced transactions run.
pub open spec fn trace_flags(fee_disabled: bool) -> SimulationFlags {
    SimulationFlags { validate: true, charge_fee: !fee_disabled }
}

/// The job of the transaction at `position` of a batch.
pub open spec fn job_of(
    operation: Operation,
    flags: SimulationFlags,
    replayed: usize,
    with_state_diff: bool,
    fee_disabled: bool,
    position: usize,
    transaction: Transaction,
) -> Job {
    let fee_type = transaction.spec_fee_type();
    match operation {
        Operation::EstimateFee => Job {
            plan: plan_of(transaction, flags),
            own_layer: false,
            keep_diff: false,
            estimation: Estimation::WithMinimum,
            revert_is_failure: true,
            failure_is_fatal: true,
            fee_type,
        },
        Operation::SimulateTransactions => Job {
            plan: plan_of(transaction, flags),
            own_layer: true,
            keep_diff: true,
            estimation: Estimation::No,
            revert_is_failure: false,
            failure_is_fatal: false,
            fee_type,
        },
        Operation::SimulateMessage => Job {
            plan: plan_of(transaction, flags),
            own_layer: false,
            keep_diff: false,
            estimation: Estimation::No,
            revert_is_failure: false,
            failure_is_fatal: true,
            fee_type,
        },
        Operation::EstimateMessageFee => Job {
            plan: plan_of(transaction, flags),
            own_layer: false,
            keep_diff: false,
            estimation: Estimation::WithoutMinimum,
            revert_is_failure: true,
            failure_is_fatal: true,
            fee_type,
        },
        Operation::ReExecuteTransactions => if position < replayed {
            Job {
                plan: plan_of(transaction, replay_flags()),
                own_layer: false,
                keep_diff: false,
                estimation: Estimation::No,
                revert_is_failure: false,
                failure_is_fatal: true,
                fee_type,
            }
        } else {
            Job {
                plan: plan_of(transaction, trace_flags(fee_disabled)),
                own_layer: true,
                keep_diff: with_state_diff,
                estimation: Estimation::No,
                revert_is_failure: false,
                failure_is_fatal: true,
                fee_type,
            }
        },
    }
}

/// Works out the job of the transaction at `position` of a batch.
pub fn plan_job(
    operation: Operation,
    flags: &SimulationFlags,
    replayed: usize,
    with_state_diff: bool,
    fee_disabled: bool,
    position: usize,
    transaction: &Transaction,
) -> (job: Job)
    ensures
        job == job_of(
            operation,
            *flags,
            replayed,
            with_state_diff,
            fee_disabled,
            position,
            *transaction,
        ),
{
    let fee_type = transaction.fee_type();
    let (used_flags, own_layer, keep_diff, estimation, revert_is_failure, failure_is_fatal) =
        match operation {
        Operation::EstimateFee => (*flags, false, false, Estimation::WithMinimum, true, true),
        Operation::SimulateTransactions => (*flags, true, true, Estimation::No, false, false),
        Operation::SimulateMessage => (*flags, false, false, Estimation::No, false, true),
        Operation::EstimateMessageFee => (
            *flags,
            false,
            false,
            Estimation::WithoutMinimum,
            true,
            true,
        ),
        Operation::ReExecuteTransactions => {
            if position < replayed {
                (
                    SimulationFlags { validate: true, charge_fee: true },
                    false,
                    false,
                    Estimation::No,
                    false,
                    true,
                )
            } else {
                (
                    SimulationFlags { validate: true, charge_fee: !fee_disabled },
                    true,
                    with_state_diff,
                    Estimation::No,
                    false,
                    true,
                )
            }
        },
    };
    Job {
        plan: dispatch_transaction(transaction, &used_flags),
        own_layer,
        keep_diff,
        estimation,
        revert_is_failure,
        failure_is_fatal,
        fee_type,
    }
}

/// The result and the estimate that pricing an execution gives.
pub open spec fn priced(
    info: ExecutionInfo,
    prices: GasPrices,
    fee_type: FeeType,
    minimal: Option<GasVector>,
    priced_resources: Result<u128, FeeError>,
) -> (Result<ExecutionInfo, SimulationError>, Option<FeeEstimate>) {
    match effective_fee(info.actual_fee, priced_resources) {
        Ok(fee) => (
            Ok(
                ExecutionInfo {
                    actual_fee: fee,
                    da_gas: info.da_gas,
                    actual_resources: info.actual_resources,
                    revert_error: info.revert_error,
                },
            ),
            Some(
                estimate_of(
                    fee,
                    info.da_gas,
                    prices.gas_price(fee_type),
                    prices.data_gas_price(fee_type),
                    fee_type,
                    minimal,
                ),
            ),
        ),
        Err(e) => (Err(SimulationError::FeeComputation(e)), None),
    }
}

/// What a batch makes of a transaction's result under its job: a hard failure stays a
/// failure, a revert is one where the job says so, and where an estimate is asked for the
/// execution is priced.
pub open spec fn concluded(
    job: Job,
    result: Result<ExecutionInfo, ExecutionError>,
    prices: GasPrices,
    pricing: Pricing,
) -> (Result<ExecutionInfo, SimulationError>, Option<FeeEstimate>) {
    match result {
        Err(e) => (Err(SimulationError::ExecutionFailed(e)), None),
        Ok(info) => if job.revert_is_failure && info.revert_error.is_some() {
            (Err(SimulationError::Reverted(info.revert_error.unwrap())), None)
        } else {
            match job.estimation {
                Estimation::No => (Ok(info), None),
                Estimation::WithMinimum => match pricing.minimal_gas {
                    Err(e) => (Err(SimulationError::FeeComputation(e)), None),
                    Ok(minimal) => priced(
                        info,
                        prices,
                        job.fee_type,
                        Some(minimal),
                        pricing.priced_resources,
                    ),
                },
                Estimation::WithoutMinimum => priced(
                    info,
                    prices,
                    job.fee_type,
                    None,
                    pricing.priced_resources,
                ),
            }
        },
    }
}

/// Prices an execution.
fn price(
    info: ExecutionInfo,
    prices: &GasPrices,
    fee_type: FeeType,
    minimal: Option<GasVector>,
    priced_resources: Result<u128, FeeError>,
) -> (out: (Result<ExecutionInfo, SimulationError>, Option<FeeEstimate>))
    ensures
        out == priced(info, *prices, fee_type, minimal, priced_resources),
{
    let mut info = info;
    match from_tx_info_and_gas_price(&mut info, prices, fee_type, minimal, priced_resources) {
        Ok(estimate) => (Ok(info), Some(estimate)),
        Err(e) => (Err(e), None),
    }
}

/// Decides what a batch records for a transaction's result.
pub fn conclude(
    job: &Job,
    result: Result<ExecutionInfo, ExecutionError>,
    prices: &GasPrices,
    pricing: &Pricing,
) -> (out: (Result<ExecutionInfo, SimulationError>, Option<FeeEstimate>))
    ensures
        out == concluded(*job, result, *prices, *pricing),
{
    match result {
        Err(e) => (Err(SimulationError::ExecutionFailed(e)), None),
        Ok(info) => {
            if job.revert_is_failure && info.is_reverted() {
                match info.revert_error {
                    Some(reason) => (Err(SimulationError::Reverted(reason)), None),
                    None => (Ok(info), None),
                }
            } else {
                match job.estimation {
                    Estimation::No => (Ok(info), None),
                    Estimation::WithMinimum => match pricing.minimal_gas {
                        Err(e) => (Err(SimulationError::FeeComputation(e)), None),
                        Ok(minimal) => price(
                            info,
                            prices,
                            job.fee_type,
                            Some(minimal),
                            pricing.priced_resources,
                        ),
                    },
                    Estimation::WithoutMinimum => price(
                        info,
                        prices,
                        job.fee_type,
                        None,
                        pricing.priced_resources,
                    ),
                }
            }
        },
    }
}

} // verus!
