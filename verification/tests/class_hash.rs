use starknet_simulation::declare::{
    check_compiled_class_hash, get_casm_cotract_class_hash, hash_matches,
};
use starknet_simulation::execution::ExecutionError;
use starknet_simulation::state::Felt;
use starknet_simulation::transaction::{ContractClassPayload, DeclareTransaction};

fn compiled_class(bytecode: &str, builtin: &str) -> Vec<u8> {
    format!(
        "{{\"prime\":\"0x800000000000011000000000000000000000000000000000000000000000001\",\
         \"compiler_version\":\"2.1.0\",\"bytecode\":[{}],\"hints\":[],\
         \"entry_points_by_type\":{{\"EXTERNAL\":[{{\"selector\":\"0x1\",\"offset\":0,\
         \"builtins\":[\"{}\"]}}],\"L1_HANDLER\":[],\"CONSTRUCTOR\":[]}}}}",
        bytecode, builtin
    )
    .into_bytes()
}

fn declare(contract_class: ContractClassPayload, compiled_class_hash: Felt) -> DeclareTransaction {
    DeclareTransaction {
        version: 2,
        sender_address: Felt { hi: 0, lo: 1 },
        nonce: Felt { hi: 0, lo: 0 },
        max_fee: 1000,
        signature: vec![],
        contract_class,
        compiled_class_hash,
    }
}

#[test]
fn hash_is_derived_from_the_payload_alone() {
    let payload = compiled_class("\"0x1\",\"0x2\"", "range_check");
    let first = get_casm_cotract_class_hash(&payload).unwrap();
    let second = get_casm_cotract_class_hash(&payload.clone()).unwrap();
    assert_eq!(first, second);
    assert_ne!(first, Felt { hi: 0, lo: 0 });
    assert!(first.hi < (1u128 << 124));
}

#[test]
fn different_classes_hash_differently() {
    let first = get_casm_cotract_class_hash(&compiled_class("\"0x1\",\"0x2\"", "range_check"));
    let second = get_casm_cotract_class_hash(&compiled_class("\"0x1\",\"0x3\"", "range_check"));
    let third = get_casm_cotract_class_hash(&compiled_class("\"0x1\",\"0x2\"", "pedersen"));
    assert!(first.is_some() && second.is_some() && third.is_some());
    assert_ne!(first, second);
    assert_ne!(first, third);
}

#[test]
fn payload_that_is_no_class_has_no_hash() {
    assert_eq!(get_casm_cotract_class_hash(&b"not json".to_vec()), None);
    assert_eq!(get_casm_cotract_class_hash(&b"{}".to_vec()), None);
    assert_eq!(get_casm_cotract_class_hash(&Vec::new()), None);
}

#[test]
fn class_with_an_unencodable_builtin_has_no_hash() {
    let payload =
        compiled_class("\"0x1\"", "a_builtin_name_that_is_far_too_long_for_a_short_string");
    assert_eq!(get_casm_cotract_class_hash(&payload), None);
}

#[test]
fn hash_matches_only_the_claimed_hash() {
    let hash = Felt { hi: 1, lo: 2 };
    assert!(hash_matches(Some(hash), hash));
    assert!(!hash_matches(Some(hash), Felt { hi: 1, lo: 3 }));
    assert!(!hash_matches(Some(hash), Felt { hi: 2, lo: 2 }));
    assert!(!hash_matches(None, hash));
}

#[test]
fn declare_with_the_derived_hash_is_accepted() {
    let payload = compiled_class("\"0x1\",\"0x2\"", "range_check");
    let hash = get_casm_cotract_class_hash(&payload).unwrap();
    let transaction = declare(ContractClassPayload::Compiled(payload), hash);
    assert_eq!(check_compiled_class_hash(&transaction), Ok(()));
}

#[test]
fn declare_with_another_hash_is_a_mismatch() {
    let payload = compiled_class("\"0x1\",\"0x2\"", "range_check");
    let hash = get_casm_cotract_class_hash(&payload).unwrap();
    let wrong = Felt { hi: hash.hi, lo: hash.lo ^ 1 };
    let transaction = declare(ContractClassPayload::Compiled(payload), wrong);
    assert_eq!(
        check_compiled_class_hash(&transaction),
        Err(ExecutionError::CompiledClassHashMismatch)
    );
}

#[test]
fn declare_of_an_unreadable_class_is_a_mismatch() {
    let transaction =
        declare(ContractClassPayload::Compiled(b"garbage".to_vec()), Felt { hi: 0, lo: 0 });
    assert_eq!(
        check_compiled_class_hash(&transaction),
        Err(ExecutionError::CompiledClassHashMismatch)
    );
}

#[test]
fn legacy_class_carries_no_claim() {
    let transaction =
        declare(ContractClassPayload::Legacy(b"garbage".to_vec()), Felt { hi: 7, lo: 7 });
    assert_eq!(check_compiled_class_hash(&transaction), Ok(()));
}
