//! Transactions, simulation flags, and the choice of how each kind of transaction is run.

use vstd::prelude::*;
use crate::execution::FeeType;
use crate::state::Felt;

verus! {

/// Which parts of a transaction's processing a simulation performs.
#[derive(Clone, Copy, Debug, PartialEq, Eq, Structural)]
pub struct SimulationFlags {
    /// Whether the account's validation logic is run.
    pub validate: bool,
    /// Whether the fee is computed and deducted.
    pub charge_fee: bool,
}

impl Default for SimulationFlags {
    /// Validation and fee charging are both on.
    fn default() -> (flags: SimulationFlags)
        ensures
            flags.validate,
            flags.charge_fee,
    {
        SimulationFlags { validate: true, charge_fee: true }
    }
}

/// The class that a declare transaction carries.
#[derive(Clone, Debug, PartialEq, Eq)]
pub enum ContractClassPayload {
    /// A class in the legacy bytecode form.
    Legacy(Vec<u8>),
    /// A class in the compiled bytecode form, as its JSON text.
    Compiled(Vec<u8>),
}

/// A call into an account's contracts.
#[derive(Clone, Debug, PartialEq, Eq)]
pub struct InvokeTransaction {
    pub version: u64,
    pub sender_address: Felt,
    pub nonce: Felt,
    pub max_fee: u128,
    pub signature: Vec<Felt>,
    pub calldata: Vec<Felt>,
}

/// The registration of a contract class.
#[derive(Clone, Debug, PartialEq, Eq)]
pub struct DeclareTransaction {
    pub version: u64,
    pub sender_address: Felt,
    pub nonce: Felt,
    pub max_fee: u128,
    pub signature: Vec<Felt>,
    pub contract_class: ContractClassPayload,
    /// The hash that the sender claims for the compiled class.
    pub compiled_class_hash: Felt,
}

/// The deployment of an account contract.
#[derive(Clone, Debug, PartialEq, Eq)]
pub struct DeployAccountTransaction {
    pub version: u64,
    pub nonce: Felt,
    pub max_fee: u128,
    pub signature: Vec<Felt>,
    pub class_hash: Felt,
    pub contract_address_salt: Felt,
    pub constructor_calldata: Vec<Felt>,
}

/// A message sent from the settlement layer to a contract.
#[derive(Clone, Debug, PartialEq, Eq)]
pub struct L1HandlerTransaction {
    pub nonce: Felt,
    pub contract_address: Felt,
    pub entry_point_selector: Felt,
    pub calldata: Vec<Felt>,
    pub paid_fee_on_l1: u128,
}

/// A transaction that an account signed.
#[derive(Clone, Debug, PartialEq, Eq)]
pub enum AccountTransaction {
    Declare(DeclareTransaction),
    DeployAccount(DeployAccountTransaction),
    Invoke(InvokeTransaction),
}

/// Any transaction that can be executed.
#[derive(Clone, Debug, PartialEq, Eq)]
pub enum Transaction {
    AccountTransaction(AccountTransaction),
    L1HandlerTransaction(L1HandlerTransaction),
}

/// How a failure of the contract call is treated.
#[derive(Clone, Copy, Debug, PartialEq, Eq, Structural)]
pub enum ExecutionPath {
    /// Any failure is a hard error.
    NonRevertible,
    /// A failure of the call is recorded as a charged revert.
    Revertible,
    /// The message path: no account validation, and any failure is a hard error.
    Message,
}

/// What the execution engine is asked to do with one transaction.
#[derive(Clone, Copy, Debug, PartialEq, Eq, Structural)]
pub struct ExecutionPlan {
    pub path: ExecutionPath,
    pub validate: bool,
    pub charge_fee: bool,
}

/// The version from which on fees are charged in the second token.
pub const STRK_FEE_VERSION: u64 = 3;

impl AccountTransaction {
    /// The version of the transaction.
    pub open spec fn spec_version(&self) -> u64 {
        match self {
            AccountTransaction::Declare(tx) => tx.version,
            AccountTransaction::DeployAccount(tx) => tx.version,
            AccountTransaction::Invoke(tx) => tx.version,
        }
    }

    /// The path on which the transaction runs: an invoke transaction of a version above 0
    /// can be reverted, everything else cannot.
    pub open spec fn path(&self) -> ExecutionPath {
        match self {
            AccountTransaction::Declare(_) => ExecutionPath::NonRevertible,
            AccountTransaction::DeployAccount(_) => ExecutionPath::NonRevertible,
            AccountTransaction::Invoke(tx) => if tx.version == 0 {
                ExecutionPath::NonRevertible
            } else {
                ExecutionPath::Revertible
            },
        }
    }

    /// The token in which the transaction pays its fee.
    pub open spec fn spec_fee_type(&self) -> FeeType {
        if self.spec_version() < STRK_FEE_VERSION {
            FeeType::Eth
        } else {
            FeeType::Strk
        }
    }

    /// The version of the transaction.
    pub fn version(&self) -> (version: u64)
        ensures
            version == self.spec_version(),
    {
        match self {
            AccountTransaction::Declare(tx) => tx.version,
            AccountTransaction::DeployAccount(tx) => tx.version,
            AccountTransaction::Invoke(tx) => tx.version,
        }
    }

    /// The token in which the transaction pays its fee.
    pub fn fee_type(&self) -> (fee_type: FeeType)
        ensures
            fee_type == self.spec_fee_type(),
    {
        if self.version() < STRK_FEE_VERSION {
            FeeType::Eth
        } else {
            FeeType::Strk
        }
    }
}

impl Transaction {
    /// The path on which the transaction runs.
    pub open spec fn path(&self) -> ExecutionPath {
        match self {
            Transaction::AccountTransaction(tx) => tx.path(),
            Transaction::L1HandlerTransaction(_) => ExecutionPath::Message,
        }
    }

    /// The token in which the transaction pays its fee; a message pays in the first token.
    pub open spec fn spec_fee_type(&self) -> FeeType {
        match self {
            Transaction::AccountTransaction(tx) => tx.spec_fee_type(),
            Transaction::L1HandlerTransaction(_) => FeeType::Eth,
        }
    }

    /// The token in which the transaction pays its fee.
    pub fn fee_type(&self) -> (fee_type: FeeType)
        ensures
            fee_type == self.spec_fee_type(),
    {
        match self {
            Transaction::AccountTransaction(tx) => tx.fee_type(),
            Transaction::L1HandlerTransaction(_) => FeeType::Eth,
        }
    }
}

/// The plan that the flags and the transaction's path make up.
pub open spec fn plan_of(transaction: Transaction, flags: SimulationFlags) -> ExecutionPlan {
    match transaction {
        Transaction::AccountTransaction(tx) => ExecutionPlan {
            path: tx.path(),
            validate: flags.validate,
            charge_fee: flags.charge_fee,
        },
        Transaction::L1HandlerTransaction(_) => ExecutionPlan {
            path: ExecutionPath::Message,
            validate: false,
            charge_fee: false,
        },
    }
}

/// Chooses how an account transaction runs.
///
/// Declare and deploy-account transactions, and invoke transactions of version 0, cannot be
/// reverted; every later invoke transaction can.
pub fn dispatch_account_transaction(
    transaction: &AccountTransaction,
    simulation_flags: &SimulationFlags,
) -> (plan: ExecutionPlan)
    ensures
        plan == plan_of(Transaction::AccountTransaction(*transaction), *simulation_flags),
        plan.path == transaction.path(),
        plan.validate == simulation_flags.validate,
        plan.charge_fee == simulation_flags.charge_fee,
{
    let path = match transaction {
        AccountTransaction::Declare(_) => ExecutionPath::NonRevertible,
        AccountTransaction::DeployAccount(_) => ExecutionPath::NonRevertible,
        AccountTransaction::Invoke(tx) => {
            if tx.version == 0 {
                ExecutionPath::NonRevertible
            } else {
                ExecutionPath::Revertible
            }
        },
    };
    ExecutionPlan {
        path,
        validate: simulation_flags.validate,
        charge_fee: simulation_flags.charge_fee,
    }
}

/// Chooses how a message runs: on the message path, without validation or fee deduction.
pub fn dispatch_message(transaction: &L1HandlerTransaction) -> (plan: ExecutionPlan)
    ensures
        plan == (ExecutionPlan {
            path: ExecutionPath::Message,
            validate: false,
            charge_fee: false,
        }),
{
    ExecutionPlan { path: ExecutionPath::Message, validate: false, charge_fee: false }
}

/// Chooses how a transaction of any kind runs.
pub fn dispatch_transaction(transaction: &Transaction, simulation_flags: &SimulationFlags) -> (plan:
    ExecutionPlan)
    ensures
        plan == plan_of(*transaction, *simulation_flags),
{
    match transaction {
        Transaction::AccountTransaction(tx) => dispatch_account_transaction(tx, simulation_flags),
        Transaction::L1HandlerTransaction(tx) => dispatch_message(tx),
    }
}

} // verus!
