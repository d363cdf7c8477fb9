use starknet_simulation::execution::{
    settle_call, CallFailure, CallOutput, ExecutionError, ExecutionInfo, FailureKind, FeeType,
    GasVector, ResourceUsage,
};
use starknet_simulation::state::Felt;
use starknet_simulation::transaction::{
    dispatch_account_transaction, dispatch_message, dispatch_transaction, AccountTransaction,
    ContractClassPayload, DeclareTransaction, DeployAccountTransaction, ExecutionPath,
    ExecutionPlan, InvokeTransaction, L1HandlerTransaction, SimulationFlags, Transaction,
};

fn felt(n: u128) -> Felt {
    Felt { hi: 0, lo: n }
}

fn invoke(version: u64) -> AccountTransaction {
    AccountTransaction::Invoke(InvokeTransaction {
        version,
        sender_address: felt(1),
        nonce: felt(0),
        max_fee: 1000,
        signature: vec![felt(5), felt(6)],
        calldata: vec![felt(7)],
    })
}

fn declare(version: u64) -> AccountTransaction {
    AccountTransaction::Declare(DeclareTransaction {
        version,
        sender_address: felt(1),
        nonce: felt(0),
        max_fee: 1000,
        signature: vec![],
        contract_class: ContractClassPayload::Legacy(vec![1, 2, 3]),
        compiled_class_hash: felt(0),
    })
}

fn deploy_account(version: u64) -> AccountTransaction {
    AccountTransaction::DeployAccount(DeployAccountTransaction {
        version,
        nonce: felt(0),
        max_fee: 1000,
        signature: vec![],
        class_hash: felt(9),
        contract_address_salt: felt(3),
        constructor_calldata: vec![],
    })
}

fn message() -> L1HandlerTransaction {
    L1HandlerTransaction {
        nonce: felt(0),
        contract_address: felt(2),
        entry_point_selector: felt(3),
        calldata: vec![felt(1)],
        paid_fee_on_l1: 1,
    }
}

fn resources(n_steps: u64) -> ResourceUsage {
    ResourceUsage { n_steps, n_memory_holes: 0, l1_gas_usage: 1, l1_blob_gas_usage: 0 }
}

#[test]
fn default_flags_validate_and_charge() {
    assert_eq!(SimulationFlags::default(), SimulationFlags { validate: true, charge_fee: true });
}

#[test]
fn declare_and_deploy_account_are_never_revertible() {
    let flags = SimulationFlags { validate: true, charge_fee: false };
    for version in [0, 1, 2, 3] {
        assert_eq!(
            dispatch_account_transaction(&declare(version), &flags),
            ExecutionPlan { path: ExecutionPath::NonRevertible, validate: true, charge_fee: false }
        );
        assert_eq!(
            dispatch_account_transaction(&deploy_account(version), &flags),
            ExecutionPlan { path: ExecutionPath::NonRevertible, validate: true, charge_fee: false }
        );
    }
}

#[test]
fn invoke_of_version_zero_is_not_revertible() {
    let flags = SimulationFlags { validate: false, charge_fee: true };
    assert_eq!(
        dispatch_account_transaction(&invoke(0), &flags),
        ExecutionPlan { path: ExecutionPath::NonRevertible, validate: false, charge_fee: true }
    );
}

#[test]
fn later_invoke_versions_are_revertible() {
    let flags = SimulationFlags { validate: false, charge_fee: false };
    for version in [1, 2, 3, u64::MAX] {
        assert_eq!(
            dispatch_account_transaction(&invoke(version), &flags),
            ExecutionPlan { path: ExecutionPath::Revertible, validate: false, charge_fee: false }
        );
    }
}

#[test]
fn messages_bypass_validation() {
    let plan = ExecutionPlan { path: ExecutionPath::Message, validate: false, charge_fee: false };
    assert_eq!(dispatch_message(&message()), plan);
    let flags = SimulationFlags { validate: true, charge_fee: true };
    assert_eq!(dispatch_transaction(&Transaction::L1HandlerTransaction(message()), &flags), plan);
    assert_eq!(
        dispatch_transaction(&Transaction::AccountTransaction(invoke(1)), &flags),
        ExecutionPlan { path: ExecutionPath::Revertible, validate: true, charge_fee: true }
    );
}

#[test]
fn fee_type_follows_the_version() {
    assert_eq!(invoke(0).fee_type(), FeeType::Eth);
    assert_eq!(invoke(2).fee_type(), FeeType::Eth);
    assert_eq!(invoke(3).fee_type(), FeeType::Strk);
    assert_eq!(declare(3).fee_type(), FeeType::Strk);
    assert_eq!(deploy_account(1).fee_type(), FeeType::Eth);
    assert_eq!(deploy_account(1).version(), 1);
    assert_eq!(Transaction::L1HandlerTransaction(message()).fee_type(), FeeType::Eth);
    assert_eq!(Transaction::AccountTransaction(invoke(4)).fee_type(), FeeType::Strk);
}

#[test]
fn successful_call_settles_to_an_unreverted_result() {
    let output = CallOutput {
        actual_resources: resources(10),
        da_gas: GasVector { l1_gas: 0, l1_data_gas: 4 },
    };
    for path in [ExecutionPath::NonRevertible, ExecutionPath::Revertible, ExecutionPath::Message] {
        assert_eq!(
            settle_call(path, 77, Ok(output)),
            Ok(ExecutionInfo {
                actual_fee: 77,
                da_gas: GasVector { l1_gas: 0, l1_data_gas: 4 },
                actual_resources: resources(10),
                revert_error: None,
            })
        );
    }
}

#[test]
fn failed_call_is_a_charged_revert_only_on_the_revertible_path() {
    let failure = CallFailure {
        kind: FailureKind::StepLimitExceeded,
        reason: "out of steps".to_string(),
        actual_resources: resources(5),
        da_gas: GasVector { l1_gas: 0, l1_data_gas: 2 },
    };
    let settled = settle_call(ExecutionPath::Revertible, 77, Err(failure.clone())).unwrap();
    assert!(settled.is_reverted());
    assert_eq!(
        settled,
        ExecutionInfo {
            actual_fee: 77,
            da_gas: GasVector { l1_gas: 0, l1_data_gas: 2 },
            actual_resources: resources(5),
            revert_error: Some("out of steps".to_string()),
        }
    );
    assert_eq!(
        settle_call(ExecutionPath::NonRevertible, 77, Err(failure.clone())),
        Err(ExecutionError::CallFailed(FailureKind::StepLimitExceeded, "out of steps".to_string()))
    );
    assert_eq!(
        settle_call(ExecutionPath::Message, 77, Err(failure)),
        Err(ExecutionError::CallFailed(FailureKind::StepLimitExceeded, "out of steps".to_string()))
    );
}

#[test]
fn every_failure_kind_is_kept_apart() {
    for kind in
        [FailureKind::EntryPointNotFound, FailureKind::StepLimitExceeded, FailureKind::VmTrap]
    {
        let failure = CallFailure {
            kind,
            reason: "why".to_string(),
            actual_resources: resources(0),
            da_gas: GasVector { l1_gas: 0, l1_data_gas: 0 },
        };
        assert_eq!(
            settle_call(ExecutionPath::NonRevertible, 0, Err(failure)),
            Err(ExecutionError::CallFailed(kind, "why".to_string()))
        );
    }
}
