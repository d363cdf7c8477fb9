//! What a closed batch hands back, and the result of each operation read off it.

use vstd::prelude::*;
use crate::execution::{BatchError, ExecutionInfo, SimulationError};
use crate::fee::FeeEstimate;
use crate::state::{StateDiff, Write};
use crate::vectors::reversed;

verus! {

/// What a batch records of one transaction.
#[derive(Debug, PartialEq, Eq)]
pub struct TransactionOutcome {
    pub result: Result<ExecutionInfo, SimulationError>,
    /// The writes of the transaction, where the operation reports them.
    pub state_diff: Option<StateDiff>,
    /// The fee estimate, where the operation derives one.
    pub fee_estimate: Option<FeeEstimate>,
}

/// What a closed batch hands back.
#[derive(Debug, PartialEq, Eq)]
pub struct BatchReport {
    /// One outcome per transaction that ran without ending the batch, in order.
    pub outcomes: Vec<TransactionOutcome>,
    /// The failure that ended the batch, if one did.
    pub failure: Option<BatchError>,
    /// How many leading transactions only rebuilt earlier state.
    pub replayed: usize,
}

/// The estimates among a run of outcomes, in order.
pub open spec fn estimates_of(outcomes: Seq<TransactionOutcome>) -> Seq<FeeEstimate>
    decreases outcomes.len(),
{
    if outcomes.len() == 0 {
        Seq::empty()
    } else {
        let earlier = estimates_of(outcomes.drop_last());
        match outcomes.last().fee_estimate {
            Some(estimate) => earlier.push(estimate),
            None => earlier,
        }
    }
}

/// The results of the transactions that ran among a run of outcomes, each with the writes
/// it reported, in order.
pub open spec fn traces_of(outcomes: Seq<TransactionOutcome>) -> Seq<
    (ExecutionInfo, Option<StateDiff>),
>
    decreases outcomes.len(),
{
    if outcomes.len() == 0 {
        Seq::empty()
    } else {
        let earlier = traces_of(outcomes.drop_last());
        match outcomes.last().result {
            Ok(info) => earlier.push((info, outcomes.last().state_diff)),
            Err(_) => earlier,
        }
    }
}

/// The writes that an outcome reports; none where it reports no diff.
pub open spec fn reported_writes(outcome: TransactionOutcome) -> Seq<Write> {
    match outcome.state_diff {
        Some(diff) => diff.writes@,
        None => Seq::empty(),
    }
}

impl BatchReport {
    /// The result of a fee estimation: the failure that ended the batch, or else the
    /// estimates of its transactions in order.
    pub fn fee_estimates(self) -> (fees: Result<Vec<FeeEstimate>, BatchError>)
        ensures
            match self.failure {
                Some(failure) => fees == Err::<Vec<FeeEstimate>, BatchError>(failure),
                None => fees.is_ok() && fees.unwrap()@ == estimates_of(self.outcomes@),
            },
    {
        match self.failure {
            Some(failure) => Err(failure),
            None => {
                let outcomes = self.outcomes;
                let mut fees: Vec<FeeEstimate> = Vec::new();
                let mut i: usize = 0;
                proof {
                    assert(outcomes@.take(0) =~= Seq::<TransactionOutcome>::empty());
                }
                while i < outcomes.len()
                    invariant
                        i <= outcomes@.len(),
                        fees@ == estimates_of(outcomes@.take(i as int)),
                    decreases outcomes@.len() - i,
                {
                    proof {
                        assert(outcomes@.take(i + 1).drop_last() =~= outcomes@.take(i as int));
                        assert(outcomes@.take(i + 1).last() == outcomes@[i as int]);
                    }
                    match outcomes[i].fee_estimate {
                        Some(estimate) => {
                            fees.push(estimate);
                        },
                        None => {},
                    }
                    i = i + 1;
                }
                proof {
                    assert(outcomes@.take(i as int) =~= outcomes@);
                }
                Ok(fees)
            },
        }
    }

    /// The result of a simulation: for each transaction in order, the writes it reported
    /// and how it ended.
    pub fn simulations(self) -> (entries: Vec<(StateDiff, Result<ExecutionInfo, SimulationError>)>)
        ensures
            entries@.len() == self.outcomes@.len(),
            forall|i: int|
                0 <= i < entries@.len() ==> {
                    &&& (#[trigger] entries@[i]).1 == self.outcomes@[i].result
                    &&& entries@[i].0.writes@ == reported_writes(self.outcomes@[i])
                },
    {
        let ghost original = self.outcomes@;
        let mut rest = reversed(self.outcomes);
        let mut entries: Vec<(StateDiff, Result<ExecutionInfo, SimulationError>)> = Vec::new();
        while rest.len() > 0
            invariant
                entries@.len() + rest@.len() == original.len(),
                forall|j: int|
                    0 <= j < rest@.len() ==> rest@[j] == original[original.len() - 1 - j],
                forall|i: int|
                    0 <= i < entries@.len() ==> {
                        &&& (#[trigger] entries@[i]).1 == original[i].result
                        &&& entries@[i].0.writes@ == reported_writes(original[i])
                    },
            decreases rest@.len(),
        {
            let outcome = rest.pop().unwrap();
            let diff = match outcome.state_diff {
                Some(diff) => diff,
                None => StateDiff::new(),
            };
            entries.push((diff, outcome.result));
        }
        entries
    }

    /// The result of running one message: the failure that ended the batch, or how the
    /// message ended; `None` where the message never ran.
    pub fn message_result(self) -> (result: Option<Result<ExecutionInfo, SimulationError>>)
        ensures
            result == (match self.failure {
                Some(failure) => Some(Err::<ExecutionInfo, SimulationError>(failure.error)),
                None => if self.outcomes@.len() == 0 {
                    None
                } else {
                    Some(self.outcomes@[0].result)
                },
            }),
    {
        match self.failure {
            Some(failure) => Some(Err(failure.error)),
            None => {
                let mut outcomes = self.outcomes;
                if outcomes.len() == 0 {
                    None
                } else {
                    Some(outcomes.remove(0).result)
                }
            },
        }
    }

    /// The result of estimating one message's fee: the failure that ended the batch, or
    /// the estimate; `None` where the message never ran or was not priced.
    pub fn message_fee(self) -> (fee: Option<Result<FeeEstimate, SimulationError>>)
        ensures
            fee == (match self.failure {
                Some(failure) => Some(Err::<FeeEstimate, SimulationError>(failure.error)),
                None => if self.outcomes@.len() == 0 {
                    None
                } else {
                    match self.outcomes@[0].fee_estimate {
                        Some(estimate) => Some(Ok(estimate)),
                        None => None,
                    }
                },
            }),
    {
        match self.failure {
            Some(failure) => Some(Err(failure.error)),
            None => {
                if self.outcomes.len() == 0 {
                    None
                } else {
                    match self.outcomes[0].fee_estimate {
                        Some(estimate) => Some(Ok(estimate)),
                        None => None,
                    }
                }
            },
        }
    }

    /// The result of a re-execution: the failure that ended the batch, or else, for each
    /// traced transaction in order, its result and the writes it reported. The replayed
    /// transactions are left out.
    pub fn traces(self) -> (traces: Result<Vec<(ExecutionInfo, Option<StateDiff>)>, BatchError>)
        ensures
            match self.failure {
                Some(failure) => traces == Err::<
                    Vec<(ExecutionInfo, Option<StateDiff>)>,
                    BatchError,
                >(failure),
                None => traces.is_ok() && traces.unwrap()@ == traces_of(
                    self.outcomes@.skip(
                        if self.replayed <= self.outcomes@.len() {
                            self.replayed as int
                        } else {
                            self.outcomes@.len() as int
                        },
                    ),
                ),
            },
    {
        match self.failure {
            Some(failure) => Err(failure),
            None => {
                let ghost all = self.outcomes@;
                let count = self.outcomes.len();
                let skipped: usize = if self.replayed <= count {
                    self.replayed
                } else {
                    count
                };
                let mut rest = reversed(self.outcomes);
                let mut done: usize = 0;
                while done < skipped
                    invariant
                        all.len() == count,
                        done <= skipped <= count,
                        done + rest@.len() == count,
                        forall|j: int| 0 <= j < rest@.len() ==> rest@[j] == all[all.len() - 1 - j],
                    decreases skipped - done,
                {
                    rest.pop();
                    done = done + 1;
                }
                let ghost traced = all.skip(skipped as int);
                let mut traces: Vec<(ExecutionInfo, Option<StateDiff>)> = Vec::new();
                proof {
                    assert(traced.take(0) =~= Seq::<TransactionOutcome>::empty());
                }
                while rest.len() > 0
                    invariant
                        all.len() == count,
                        skipped <= done <= count,
                        done + rest@.len() == count,
                        traced == all.skip(skipped as int),
                        forall|j: int| 0 <= j < rest@.len() ==> rest@[j] == all[all.len() - 1 - j],
                        traces@ == traces_of(traced.take(done - skipped)),
                    decreases rest@.len(),
                {
                    let outcome = rest.pop().unwrap();
                    proof {
                        assert(outcome == all[done as int]);
                        assert(traced.take(done - skipped + 1).drop_last() =~= traced.take(
                            done - skipped,
                        ));
                        assert(traced.take(done - skipped + 1).last() == outcome);
                    }
                    match outcome.result {
                        Ok(info) => {
                            traces.push((info, outcome.state_diff));
                        },
                        Err(_) => {},
                    }
                    done = done + 1;
                }
                proof {
                    assert(traced.take(done - skipped) =~= traced);
                }
                Ok(traces)
            },
        }
    }
}

} // verus!
