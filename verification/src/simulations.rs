//! Batches of speculative executions over a world state that is handed back untouched.
//!
//! A [`Simulation`] owns an outer scope of buffered writes over the state it was given,
//! and is driven one step at a time: it says which transaction to run and how, the caller
//! runs the execution engine against it, and hands back what the engine reported. However
//! a batch ends, the outer scope is dropped and the state returned as it was received.

use vstd::prelude::*;
use crate::declare::{check_compiled_class_hash, claimed_hash_holds};
use crate::execution::{
    settle_call, settled, BatchError, CallFailure, CallOutput, ExecutionError, ExecutionInfo,
    FeeType, SimulationError,
};
use crate::fee::{FeeEstimate, GasPrices};
use crate::job::{
    conclude, concluded, job_of, plan_job, replay_flags, Estimation, Job, Operation, Pricing,
};
use crate::report::{reported_writes, BatchReport, TransactionOutcome};
use crate::state::{
    apply_writes, lookup, Felt, StateDiff, StateHandle, StateKey, TransactionalState, Write,
};
use crate::vectors::reversed;
use crate::transaction::{
    AccountTransaction, ExecutionPath, ExecutionPlan, L1HandlerTransaction, SimulationFlags,
    Transaction,
};

verus! {

/// The chain configuration that batches run under.
#[derive(Clone, Copy, Debug, PartialEq, Eq, Structural)]
pub struct Pallet {
    /// The current gas prices.
    pub gas_prices: GasPrices,
    /// Whether the chain charges no transaction fees.
    pub fee_disabled: bool,
}

/// Where the transaction at the cursor stands.
#[derive(Clone, Copy, Debug, PartialEq, Eq, Structural)]
pub enum Phase {
    /// No transaction is running.
    Idle,
    /// The engine validates the transaction and deducts its fee.
    Preflight,
    /// The engine runs the contract call.
    Call,
}

/// What a simulation asks its driver to do next.
#[derive(Clone, Copy, Debug, PartialEq, Eq, Structural)]
pub enum Directive {
    /// Run the transaction at this position as the plan says.
    Run(usize, ExecutionPlan),
    /// The transaction at this position was rejected before execution; ask again.
    Rejected(usize),
    /// Nothing is left to run.
    Finished,
}

/// A batch in progress over a world state of type `S`.
pub struct Simulation<S: StateHandle> {
    /// The outer scope with the layers of the running transaction above it.
    pub state: TransactionalState<S>,
    /// The chain configuration that the batch runs under.
    pub config: Pallet,
    pub operation: Operation,
    /// The flags that the batch was opened with.
    pub flags: SimulationFlags,
    /// How many leading transactions only rebuild earlier state.
    pub replayed: usize,
    /// Whether traced transactions report their writes.
    pub with_state_diff: bool,
    pub transactions: Vec<Transaction>,
    /// The position of the transaction that runs, or that runs next.
    pub cursor: usize,
    pub phase: Phase,
    /// The job of the transaction that runs; meaningless while none does.
    pub job: Job,
    /// The fee that the running transaction was charged.
    pub fee: u128,
    pub outcomes: Vec<TransactionOutcome>,
    /// The failure that ended the batch, if one did.
    pub failure: Option<BatchError>,
}

impl<S: StateHandle> Simulation<S> {
    /// The outer scope with the layers of the running transaction above it.
    pub open spec fn scope(&self) -> TransactionalState<S> {
        self.state
    }

    /// The world state that the batch was opened over.
    pub open spec fn base(&self) -> S {
        self.scope().parent()
    }

    /// Whether the open layers are those that the phase calls for.
    pub closed spec fn wf(&self) -> bool {
        &&& self.state.wf()
        &&& match self.phase {
            Phase::Idle => self.state.savepoints().len() == 0,
            Phase::Preflight => {
                &&& self.cursor < self.transactions@.len()
                &&& self.state.savepoints().len() == (if self.job.own_layer {
                    1nat
                } else {
                    0nat
                })
            },
            Phase::Call => {
                &&& self.cursor < self.transactions@.len()
                &&& self.state.savepoints().len() == (if self.job.own_layer {
                    2nat
                } else {
                    1nat
                })
            },
        }
    }

    /// Checks that the open layers are those that the phase calls for.
    pub fn is_consistent(&self) -> (ok: bool)
        ensures
            ok == self.wf(),
    {
        if !self.state.check() {
            return false;
        }
        let depth = self.state.depth();
        let own: usize = if self.job.own_layer {
            1
        } else {
            0
        };
        match self.phase {
            Phase::Idle => depth == 1,
            Phase::Preflight => self.cursor < self.transactions.len() && depth == 1 + own,
            Phase::Call => self.cursor < self.transactions.len() && depth == 2 + own,
        }
    }

    /// Whether two simulations run the same batch under the same configuration.
    pub open spec fn same_batch(&self, other: Self) -> bool {
        &&& self.base() == other.base()
        &&& self.config == other.config
        &&& self.operation == other.operation
        &&& self.flags == other.flags
        &&& self.replayed == other.replayed
        &&& self.with_state_diff == other.with_state_diff
        &&& self.transactions == other.transactions
    }

    /// Whether a transaction is waiting to be started.
    pub open spec fn ready(&self) -> bool {
        &&& self.phase == Phase::Idle
        &&& self.failure.is_none()
        &&& self.cursor < self.transactions@.len()
    }

    /// The job of the transaction at the cursor.
    pub open spec fn upcoming(&self) -> Job {
        job_of(
            self.operation,
            self.flags,
            self.replayed,
            self.with_state_diff,
            self.config.fee_disabled,
            self.cursor,
            self.transactions@[self.cursor as int],
        )
    }

    /// Whether the transaction at the cursor is rejected before it runs: it declares a
    /// compiled class under a hash that is not the class's own.
    pub open spec fn rejects_upcoming(&self) -> bool {
        match self.transactions@[self.cursor as int] {
            Transaction::AccountTransaction(AccountTransaction::Declare(declare)) =>
                !claimed_hash_holds(declare),
            _ => false,
        }
    }

    /// Whether `after` is `self` with the running transaction closed and its outcome
    /// recorded: a failure that is fatal under the job ends the batch, with the position of
    /// the transaction; anything else is appended to the outcomes, with the writes
    /// `diff` where the job keeps them.
    pub open spec fn recorded(
        &self,
        after: Self,
        result: Result<ExecutionInfo, SimulationError>,
        estimate: Option<FeeEstimate>,
        diff: Seq<Write>,
    ) -> bool {
        &&& after.same_batch(*self)
        &&& after.cursor == self.cursor + 1
        &&& after.phase == Phase::Idle
        &&& after.job == self.job
        &&& after.fee == self.fee
        &&& match result {
            Err(error) if self.job.failure_is_fatal => {
                &&& after.failure == Some(BatchError { position: self.cursor, error })
                &&& after.outcomes == self.outcomes
            },
            _ => {
                &&& after.failure == self.failure
                &&& after.outcomes@.len() == self.outcomes@.len() + 1
                &&& after.outcomes@.drop_last() == self.outcomes@
                &&& after.outcomes@.last().result == result
                &&& after.outcomes@.last().fee_estimate == estimate
                &&& match after.outcomes@.last().state_diff {
                    Some(kept) => self.job.keep_diff && kept.writes@ == diff,
                    None => !self.job.keep_diff,
                }
            },
        }
    }

    /// Whether `after` is `self` with the running transaction closed, where `buffered` and
    /// `marks` are the writes and the savepoints once the call layer is gone.
    ///
    /// A transaction with a layer of its own merges it into the outer scope where it ran
    /// (`ran`), and then reports the layer's writes; where it failed hard the layer is
    /// dropped and no write is reported.
    pub open spec fn closes(
        &self,
        after: Self,
        buffered: Seq<Write>,
        marks: Seq<usize>,
        ran: bool,
        result: Result<ExecutionInfo, SimulationError>,
        estimate: Option<FeeEstimate>,
    ) -> bool {
        &&& after.scope().savepoints() == (if self.job.own_layer {
            marks.drop_last()
        } else {
            marks
        })
        &&& after.scope().buffered() == (if self.job.own_layer && !ran {
            buffered.take(marks.last() as int)
        } else {
            buffered
        })
        &&& self.recorded(
            after,
            result,
            estimate,
            if self.job.own_layer && ran {
                buffered.subrange(marks.last() as int, buffered.len() as int)
            } else {
                Seq::empty()
            },
        )
    }

    /// Opens a batch over `state`: an empty outer scope, no transaction running.
    pub fn open(
        config: Pallet,
        operation: Operation,
        flags: SimulationFlags,
        replayed: usize,
        with_state_diff: bool,
        state: S,
        transactions: Vec<Transaction>,
    ) -> (run: Self)
        ensures
            run.wf(),
            run.base() == state,
            run.scope().buffered() == Seq::<Write>::empty(),
            run.scope().savepoints() == Seq::<usize>::empty(),
            run.config == config,
            run.operation == operation,
            run.flags == flags,
            run.replayed == replayed,
            run.with_state_diff == with_state_diff,
            run.transactions == transactions,
            run.cursor == 0,
            run.phase == Phase::Idle,
            run.outcomes@ == Seq::<TransactionOutcome>::empty(),
            run.failure.is_none(),
    {
        Simulation {
            state: TransactionalState::new(state),
            config,
            operation,
            flags,
            replayed,
            with_state_diff,
            transactions,
            cursor: 0,
            phase: Phase::Idle,
            job: Job {
                plan: ExecutionPlan {
                    path: ExecutionPath::NonRevertible,
                    validate: flags.validate,
                    charge_fee: flags.charge_fee,
                },
                own_layer: false,
                keep_diff: false,
                estimation: Estimation::No,
                revert_is_failure: false,
                failure_is_fatal: true,
                fee_type: FeeType::Eth,
            },
            fee: 0,
            outcomes: Vec::new(),
            failure: None,
        }
    }

    /// Reads a ledger fact as the running transaction sees it: through every open layer,
    /// down to the world state.
    pub fn read(&self, key: &StateKey) -> (value: Option<Felt>)
        ensures
            value == lookup(self.scope().facts(), *key),
    {
        self.state.read(key)
    }

    /// Buffers a write of the running transaction in the top layer.
    pub fn write(&mut self, key: StateKey, value: Felt)
        requires
            old(self).wf(),
        ensures
            final(self).wf(),
            final(self).same_batch(*old(self)),
            final(self).scope().buffered() == old(self).scope().buffered().push(
                Write { key, value },
            ),
            final(self).scope().savepoints() == old(self).scope().savepoints(),
            final(self).cursor == old(self).cursor,
            final(self).phase == old(self).phase,
            final(self).job == old(self).job,
            final(self).fee == old(self).fee,
            final(self).outcomes == old(self).outcomes,
            final(self).failure == old(self).failure,
    {
        self.state.write(key, value);
    }

    /// Closes the running transaction and records its outcome.
    fn record(
        &mut self,
        result: Result<ExecutionInfo, SimulationError>,
        estimate: Option<FeeEstimate>,
        diff: StateDiff,
    )
        requires
            old(self).cursor < old(self).transactions@.len(),
        ensures
            final(self).scope() == old(self).scope(),
            old(self).recorded(*final(self), result, estimate, diff.writes@),
    {
        let position = self.cursor;
        let count = self.transactions.len();
        assert(position < count);
        let state_diff = if self.job.keep_diff {
            Some(diff)
        } else {
            None
        };
        self.cursor = self.cursor + 1;
        self.phase = Phase::Idle;
        let ghost before = self.outcomes@;
        if self.job.failure_is_fatal {
            match result {
                Err(error) => {
                    self.failure = Some(BatchError { position, error });
                },
                Ok(info) => {
                    self.outcomes.push(
                        TransactionOutcome { result: Ok(info), state_diff, fee_estimate: estimate },
                    );
                    proof {
                        assert(self.outcomes@.drop_last() =~= before);
                    }
                },
            }
        } else {
            self.outcomes.push(TransactionOutcome { result, state_diff, fee_estimate: estimate });
            proof {
                assert(self.outcomes@.drop_last() =~= before);
            }
        }
    }

    /// Closes the layer of the running transaction, if it has one, and records its outcome.
    fn close(
        &mut self,
        ran: bool,
        result: Result<ExecutionInfo, SimulationError>,
        estimate: Option<FeeEstimate>,
    )
        requires
            old(self).state.wf(),
            old(self).cursor < old(self).transactions@.len(),
            old(self).state.savepoints().len() == (if old(self).job.own_layer {
                1nat
            } else {
                0nat
            }),
        ensures
            final(self).wf(),
            old(self).closes(
                *final(self),
                old(self).scope().buffered(),
                old(self).scope().savepoints(),
                ran,
                result,
                estimate,
            ),
    {
        let mut kept = StateDiff::new();
        if self.job.own_layer {
            if ran {
                kept = self.state.diff();
                self.state.commit_layer();
            } else {
                self.state.abort_layer();
            }
        }
        self.record(result, estimate, kept);
    }

    /// Starts the transaction at the cursor and says how the engine is to run it.
    ///
    /// While a transaction runs, its plan is returned again and nothing changes. Once the
    /// batch has failed or every transaction has run, the answer is `Finished`. A
    /// declare transaction whose claimed compiled-class hash is not the hash of its class
    /// is not started: the mismatch is recorded as its hard failure.
    pub fn advance(&mut self) -> (directive: Directive)
        requires
            old(self).wf(),
        ensures
            final(self).wf(),
            final(self).same_batch(*old(self)),
            !old(self).ready() ==> {
                &&& *final(self) == *old(self)
                &&& directive == (if old(self).phase == Phase::Idle {
                    Directive::Finished
                } else {
                    Directive::Run(old(self).cursor, old(self).job.plan)
                })
            },
            old(self).ready() && old(self).rejects_upcoming() ==> {
                &&& directive == Directive::Rejected(old(self).cursor)
                &&& final(self).scope() == old(self).scope()
                &&& final(self).job == old(self).upcoming()
                &&& final(self).cursor == old(self).cursor + 1
                &&& final(self).phase == Phase::Idle
                &&& (if old(self).upcoming().failure_is_fatal {
                    &&& final(self).outcomes == old(self).outcomes
                    &&& final(self).failure == Some(
                        BatchError {
                            position: old(self).cursor,
                            error: SimulationError::ExecutionFailed(
                                ExecutionError::CompiledClassHashMismatch,
                            ),
                        },
                    )
                } else {
                    &&& final(self).failure.is_none()
                    &&& final(self).outcomes@.len() == old(self).outcomes@.len() + 1
                    &&& final(self).outcomes@.drop_last() == old(self).outcomes@
                    &&& final(self).outcomes@.last().result == Err::<
                        ExecutionInfo,
                        SimulationError,
                    >(SimulationError::ExecutionFailed(ExecutionError::CompiledClassHashMismatch))
                    &&& final(self).outcomes@.last().fee_estimate.is_none()
                    &&& match final(self).outcomes@.last().state_diff {
                        Some(kept) => old(self).upcoming().keep_diff && kept.writes@.len() == 0,
                        None => !old(self).upcoming().keep_diff,
                    }
                })
            },
            old(self).ready() && !old(self).rejects_upcoming() ==> {
                let job = old(self).upcoming();
                let buffered = old(self).scope().buffered();
                let marks = old(self).scope().savepoints();
                let own = if job.own_layer {
                    marks.push(buffered.len() as usize)
                } else {
                    marks
                };
                &&& directive == Directive::Run(old(self).cursor, job.plan)
                &&& final(self).job == job
                &&& final(self).fee == 0
                &&& final(self).cursor == old(self).cursor
                &&& final(self).outcomes == old(self).outcomes
                &&& final(self).failure == old(self).failure
                &&& final(self).scope().buffered() == buffered
                &&& if job.plan.path == ExecutionPath::Message {
                    &&& final(self).phase == Phase::Call
                    &&& final(self).scope().savepoints() == own.push(buffered.len() as usize)
                } else {
                    &&& final(self).phase == Phase::Preflight
                    &&& final(self).scope().savepoints() == own
                }
            },
    {
        match self.phase {
            Phase::Idle => {},
            _ => {
                return Directive::Run(self.cursor, self.job.plan);
            },
        }
        if self.failure.is_some() || self.cursor >= self.transactions.len() {
            return Directive::Finished;
        }
        let position = self.cursor;
        let transaction = &self.transactions[position];
        let job = plan_job(
            self.operation,
            &self.flags,
            self.replayed,
            self.with_state_diff,
            self.config.fee_disabled,
            position,
            transaction,
        );
        let checked = match transaction {
            Transaction::AccountTransaction(AccountTransaction::Declare(declare)) =>
                check_compiled_class_hash(declare),
            _ => Ok(()),
        };
        self.job = job;
        match checked {
            Err(error) => {
                self.record(Err(SimulationError::ExecutionFailed(error)), None, StateDiff::new());
                Directive::Rejected(position)
            },
            Ok(_) => {
                self.fee = 0;
                if job.own_layer {
                    self.state.begin();
                }
                match job.plan.path {
                    ExecutionPath::Message => {
                        self.state.begin();
                        self.phase = Phase::Call;
                    },
                    _ => {
                        self.phase = Phase::Preflight;
                    },
                }
                Directive::Run(position, job.plan)
            },
        }
    }

    /// Takes the engine's report of validation and fee deduction.
    ///
    /// On success the fee charged is noted and the call layer opened. A failure is the
    /// transaction's hard failure: its layer, if it has one, is dropped. Returns `false`,
    /// and changes nothing, unless a transaction is in this phase.
    pub fn preflight_done(&mut self, report: Result<u128, String>) -> (accepted: bool)
        requires
            old(self).wf(),
        ensures
            final(self).wf(),
            final(self).same_batch(*old(self)),
            accepted == (old(self).phase == Phase::Preflight),
            !accepted ==> *final(self) == *old(self),
            accepted ==> match report {
                Ok(fee) => {
                    &&& final(self).fee == fee
                    &&& final(self).phase == Phase::Call
                    &&& final(self).cursor == old(self).cursor
                    &&& final(self).job == old(self).job
                    &&& final(self).outcomes == old(self).outcomes
                    &&& final(self).failure == old(self).failure
                    &&& final(self).scope().buffered() == old(self).scope().buffered()
                    &&& final(self).scope().savepoints() == old(self).scope().savepoints().push(
                        old(self).scope().buffered().len() as usize,
                    )
                },
                Err(reason) => old(self).closes(
                    *final(self),
                    old(self).scope().buffered(),
                    old(self).scope().savepoints(),
                    false,
                    Err(SimulationError::ExecutionFailed(ExecutionError::ValidationFailed(reason))),
                    None,
                ),
            },
    {
        match self.phase {
            Phase::Preflight => {},
            _ => {
                return false;
            },
        }
        match report {
            Ok(fee) => {
                self.fee = fee;
                self.state.begin();
                self.phase = Phase::Call;
            },
            Err(reason) => {
                self.close(
                    false,
                    Err(SimulationError::ExecutionFailed(ExecutionError::ValidationFailed(reason))),
                    None,
                );
            },
        }
        true
    }

    /// Takes the engine's report of the contract call and closes the transaction.
    ///
    /// The call layer is merged where the call succeeded and dropped where it failed, so
    /// that a reverted call leaves only what was written before it. The result is settled
    /// by the transaction's path, concluded under its job, and recorded. Returns `false`,
    /// and changes nothing, unless a transaction is in this phase.
    pub fn call_done(&mut self, report: Result<CallOutput, CallFailure>, pricing: &Pricing) -> (accepted:
        bool)
        requires
            old(self).wf(),
        ensures
            final(self).wf(),
            final(self).same_batch(*old(self)),
            accepted == (old(self).phase == Phase::Call),
            !accepted ==> *final(self) == *old(self),
            accepted ==> {
                let result = settled(old(self).job.plan.path, old(self).fee, report);
                let out = concluded(old(self).job, result, old(self).config.gas_prices, *pricing);
                let buffered = old(self).scope().buffered();
                let marks = old(self).scope().savepoints();
                old(self).closes(
                    *final(self),
                    if report.is_ok() {
                        buffered
                    } else {
                        buffered.take(marks.last() as int)
                    },
                    marks.drop_last(),
                    result.is_ok(),
                    out.0,
                    out.1,
                )
            },
    {
        match self.phase {
            Phase::Call => {},
            _ => {
                return false;
            },
        }
        let call_ran = report.is_ok();
        let result = settle_call(self.job.plan.path, self.fee, report);
        if call_ran {
            self.state.commit_layer();
        } else {
            self.state.abort_layer();
        }
        let ran = result.is_ok();
        let job = self.job;
        let prices = self.config.gas_prices;
        let out = conclude(&job, result, &prices, pricing);
        self.close(ran, out.0, out.1);
        true
    }

    /// Closes the batch: every buffered write is dropped, and the world state is handed
    /// back as it was received, together with what the batch recorded.
    pub fn finish(self) -> (closed: (S, BatchReport))
        ensures
            closed.0 == self.base(),
            closed.1.outcomes == self.outcomes,
            closed.1.failure == self.failure,
            closed.1.replayed == self.replayed,
    {
        let state = self.state.abort();
        (
            state,
            BatchReport {
                outcomes: self.outcomes,
                failure: self.failure,
                replayed: self.replayed,
            },
        )
    }
}

/// Account transactions as transactions of any kind, in the same order.
pub open spec fn wrapped(transactions: Seq<AccountTransaction>) -> Seq<Transaction> {
    Seq::new(transactions.len(), |i: int| Transaction::AccountTransaction(transactions[i]))
}

/// Turns account transactions into transactions of any kind.
fn wrap(transactions: Vec<AccountTransaction>) -> (out: Vec<Transaction>)
    ensures
        out@ == wrapped(transactions@),
{
    let ghost all = transactions@;
    let mut rest = reversed(transactions);
    let mut out: Vec<Transaction> = Vec::new();
    while rest.len() > 0
        invariant
            out@.len() + rest@.len() == all.len(),
            forall|j: int| 0 <= j < rest@.len() ==> rest@[j] == all[all.len() - 1 - j],
            forall|i: int| 0 <= i < out@.len() ==> out@[i] == Transaction::AccountTransaction(all[i]),
        decreases rest@.len(),
    {
        let transaction = rest.pop().unwrap();
        out.push(Transaction::AccountTransaction(transaction));
    }
    proof {
        assert(out@ =~= wrapped(all));
    }
    out
}

impl Pallet {
    /// Opens a fee estimation over `state`.
    ///
    /// The transactions run one after the other against the one outer scope, so that each
    /// sees the writes of those before it. The first that fails or is reverted ends the
    /// batch. Each that succeeds is priced, raised to its minimal gas vector.
    pub fn estimate_fee<S: StateHandle>(
        &self,
        state: S,
        transactions: Vec<AccountTransaction>,
        simulation_flags: &SimulationFlags,
    ) -> (run: Simulation<S>)
        ensures
            run.wf(),
            run.base() == state,
            run.scope().buffered() == Seq::<Write>::empty(),
            run.scope().savepoints() == Seq::<usize>::empty(),
            run.config == *self,
            run.operation == Operation::EstimateFee,
            run.flags == *simulation_flags,
            run.transactions@ == wrapped(transactions@),
            run.cursor == 0,
            run.phase == Phase::Idle,
            run.outcomes@ == Seq::<TransactionOutcome>::empty(),
            run.failure.is_none(),
    {
        Simulation::open(
            *self,
            Operation::EstimateFee,
            *simulation_flags,
            0,
            false,
            state,
            wrap(transactions),
        )
    }

    /// Opens a simulation over `state`.
    ///
    /// Each transaction runs in a layer of its own, whose writes are reported and then
    /// merged into the outer scope for the transactions after it. A transaction that fails
    /// or is reverted does not end the batch.
    pub fn simulate_transactions<S: StateHandle>(
        &self,
        state: S,
        transactions: Vec<AccountTransaction>,
        simulation_flags: &SimulationFlags,
    ) -> (run: Simulation<S>)
        ensures
            run.wf(),
            run.base() == state,
            run.scope().buffered() == Seq::<Write>::empty(),
            run.scope().savepoints() == Seq::<usize>::empty(),
            run.config == *self,
            run.operation == Operation::SimulateTransactions,
            run.flags == *simulation_flags,
            run.transactions@ == wrapped(transactions@),
            run.cursor == 0,
            run.phase == Phase::Idle,
            run.outcomes@ == Seq::<TransactionOutcome>::empty(),
            run.failure.is_none(),
    {
        Simulation::open(
            *self,
            Operation::SimulateTransactions,
            *simulation_flags,
            0,
            false,
            state,
            wrap(transactions),
        )
    }

    /// Opens the simulation of one message over `state`. No writes are reported.
    pub fn simulate_message<S: StateHandle>(
        &self,
        state: S,
        message: L1HandlerTransaction,
        simulation_flags: &SimulationFlags,
    ) -> (run: Simulation<S>)
        ensures
            run.wf(),
            run.base() == state,
            run.scope().buffered() == Seq::<Write>::empty(),
            run.scope().savepoints() == Seq::<usize>::empty(),
            run.config == *self,
            run.operation == Operation::SimulateMessage,
            run.flags == *simulation_flags,
            run.transactions@ == seq![Transaction::L1HandlerTransaction(message)],
            run.cursor == 0,
            run.phase == Phase::Idle,
            run.outcomes@ == Seq::<TransactionOutcome>::empty(),
            run.failure.is_none(),
    {
        let mut transactions: Vec<Transaction> = Vec::new();
        transactions.push(Transaction::L1HandlerTransaction(message));
        proof {
            assert(transactions@ =~= seq![Transaction::L1HandlerTransaction(message)]);
        }
        Simulation::open(
            *self,
            Operation::SimulateMessage,
            *simulation_flags,
            0,
            false,
            state,
            transactions,
        )
    }

    /// Opens the fee estimation of one message over `state`.
    ///
    /// The message is priced without a minimum; a message that fails or is reverted gives
    /// no estimate.
    pub fn estimate_message_fee<S: StateHandle>(&self, state: S, message: L1HandlerTransaction) -> (run:
        Simulation<S>)
        ensures
            run.wf(),
            run.base() == state,
            run.scope().buffered() == Seq::<Write>::empty(),
            run.scope().savepoints() == Seq::<usize>::empty(),
            run.config == *self,
            run.operation == Operation::EstimateMessageFee,
            run.flags == replay_flags(),
            run.transactions@ == seq![Transaction::L1HandlerTransaction(message)],
            run.cursor == 0,
            run.phase == Phase::Idle,
            run.outcomes@ == Seq::<TransactionOutcome>::empty(),
            run.failure.is_none(),
    {
        let mut transactions: Vec<Transaction> = Vec::new();
        transactions.push(Transaction::L1HandlerTransaction(message));
        proof {
            assert(transactions@ =~= seq![Transaction::L1HandlerTransaction(message)]);
        }
        Simulation::open(
            *self,
            Operation::EstimateMessageFee,
            SimulationFlags { validate: true, charge_fee: true },
            0,
            false,
            state,
            transactions,
        )
    }

    /// Opens a re-execution over `state`.
    ///
    /// The transactions of `transactions_before` are replayed first, with validation and
    /// fees on, to rebuild the state that the traced ones start from. Each transaction of
    /// `transactions_to_trace` then runs validated in a layer of its own, charged unless
    /// the chain charges no fees, and reports its writes where `with_state_diff` is set.
    /// Any hard failure ends the batch.
    pub fn re_execute_transactions<S: StateHandle>(
        &self,
        state: S,
        transactions_before: Vec<Transaction>,
        transactions_to_trace: Vec<Transaction>,
        with_state_diff: bool,
    ) -> (run: Simulation<S>)
        ensures
            run.wf(),
            run.base() == state,
            run.scope().buffered() == Seq::<Write>::empty(),
            run.scope().savepoints() == Seq::<usize>::empty(),
            run.config == *self,
            run.operation == Operation::ReExecuteTransactions,
            run.flags == replay_flags(),
            run.replayed == transactions_before@.len(),
            run.with_state_diff == with_state_diff,
            run.transactions@ == transactions_before@ + transactions_to_trace@,
            run.cursor == 0,
            run.phase == Phase::Idle,
            run.outcomes@ == Seq::<TransactionOutcome>::empty(),
            run.failure.is_none(),
    {
        let replayed = transactions_before.len();
        let mut transactions = transactions_before;
        let mut traced = transactions_to_trace;
        transactions.append(&mut traced);
        Simulation::open(
            *self,
            Operation::ReExecuteTransactions,
            SimulationFlags { validate: true, charge_fee: true },
            replayed,
            with_state_diff,
            state,
            transactions,
        )
    }
}

/// Closing a transaction, however it ended, leaves the world state under the batch as it
/// was, and leaves visible exactly the writes that stay buffered above it.
pub proof fn lemma_closing_keeps_world_state<S: StateHandle>(
    before: Simulation<S>,
    after: Simulation<S>,
    buffered: Seq<Write>,
    marks: Seq<usize>,
    ran: bool,
    result: Result<ExecutionInfo, SimulationError>,
    estimate: Option<FeeEstimate>,
)
    requires
        before.closes(after, buffered, marks, ran, result, estimate),
    ensures
        after.base() == before.base(),
        after.base().facts() == before.base().facts(),
        !(before.job.own_layer && !ran) ==> after.scope().facts() == apply_writes(
            before.base().facts(),
            buffered,
        ),
{
}

/// What closing a transaction records is determined by the batch and by what the engine
/// reported: two closings of one simulation on the same report agree on the writes that
/// stay, on where the batch stands, and on the outcome.
pub proof fn lemma_same_report_same_outcome<S: StateHandle>(
    before: Simulation<S>,
    first: Simulation<S>,
    second: Simulation<S>,
    buffered: Seq<Write>,
    marks: Seq<usize>,
    ran: bool,
    result: Result<ExecutionInfo, SimulationError>,
    estimate: Option<FeeEstimate>,
)
    requires
        before.closes(first, buffered, marks, ran, result, estimate),
        before.closes(second, buffered, marks, ran, result, estimate),
    ensures
        first.base() == second.base(),
        first.scope().buffered() == second.scope().buffered(),
        first.scope().savepoints() == second.scope().savepoints(),
        first.cursor == second.cursor,
        first.phase == second.phase,
        first.failure == second.failure,
        first.outcomes@.len() == second.outcomes@.len(),
        first.outcomes@.len() > before.outcomes@.len() ==> {
            &&& first.outcomes@.last().result == second.outcomes@.last().result
            &&& first.outcomes@.last().fee_estimate == second.outcomes@.last().fee_estimate
            &&& reported_writes(first.outcomes@.last()) == reported_writes(
                second.outcomes@.last(),
            )
        },
{
}

/// However long a batch is driven, it stays over the world state it was opened over:
/// every step leaves a simulation of the same batch, and the last of them still has the
/// world state of the first, which is what `finish` hands back.
pub proof fn lemma_steps_keep_world_state<S: StateHandle>(
    opened: Simulation<S>,
    steps: Seq<Simulation<S>>,
)
    requires
        steps.len() > 0,
        steps[0].same_batch(opened),
        forall|i: int| 0 < i < steps.len() ==> (#[trigger] steps[i]).same_batch(steps[i - 1]),
    ensures
        steps.last().same_batch(opened),
        steps.last().base() == opened.base(),
        steps.last().base().facts() == opened.base().facts(),
    decreases steps.len(),
{
    if steps.len() > 1 {
        let earlier = steps.drop_last();
        assert(earlier[0] == steps[0]);
        assert forall|i: int| 0 < i < earlier.len() implies (#[trigger] earlier[i]).same_batch(
            earlier[i - 1],
        ) by {
            assert(earlier[i] == steps[i]);
            assert(earlier[i - 1] == steps[i - 1]);
        }
        lemma_steps_keep_world_state(opened, earlier);
        assert(earlier.last() == steps[steps.len() - 2]);
        assert(steps[steps.len() - 1].same_batch(steps[steps.len() - 2]));
    }
}

} // verus!
