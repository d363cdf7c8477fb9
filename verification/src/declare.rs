//! The compiled-class hash of a declared class, and the check of the hash that the sender
//! claims against it.

use vstd::prelude::*;
use crate::execution::ExecutionError;
use crate::state::Felt;
use crate::transaction::{ContractClassPayload, DeclareTransaction};

verus! {

/// The compiled-class hash of the compiled class that `payload` is the JSON text of, as the
/// two halves of its 32 big-endian bytes; `None` where `payload` is no such text or the
/// class cannot be hashed.
pub uninterp spec fn derived_class_hash(payload: Seq<u8>) -> Option<(u128, u128)>;

/// Parses `payload` with `serde_json::from_slice` into a
/// `starknet_core::types::contract::CompiledClass` and calls its `class_hash`.
///
/// Not proved: that the result is `derived_class_hash` of the payload, that is, that parsing
/// and hashing depend on the bytes alone.
#[verifier::external_body]
fn derive_class_hash(payload: &Vec<u8>) -> (hash: Option<(u128, u128)>)
    ensures
        hash == derived_class_hash(payload@),
{
    let class: starknet_core::types::contract::CompiledClass =
        serde_json::from_slice(payload).ok()?;
    let bytes = class.class_hash().ok()?.to_bytes_be();
    let mut hi = [0u8; 16];
    let mut lo = [0u8; 16];
    hi.copy_from_slice(&bytes[..16]);
    lo.copy_from_slice(&bytes[16..]);
    Some((u128::from_be_bytes(hi), u128::from_be_bytes(lo)))
}

/// The hash of a compiled class as a field element.
pub open spec fn class_hash_of(payload: Seq<u8>) -> Option<Felt> {
    match derived_class_hash(payload) {
        Some(halves) => Some(Felt { hi: halves.0, lo: halves.1 }),
        None => None,
    }
}

/// Whether the hash that a declare transaction claims is the hash of the class it carries.
/// A class in the legacy form carries no claim to check.
pub open spec fn claimed_hash_holds(transaction: DeclareTransaction) -> bool {
    match transaction.contract_class {
        ContractClassPayload::Legacy(_) => true,
        ContractClassPayload::Compiled(payload) => class_hash_of(payload@) == Some(
            transaction.compiled_class_hash,
        ),
    }
}

/// Derives the hash of a compiled class from its JSON text.
pub fn get_casm_cotract_class_hash(payload: &Vec<u8>) -> (hash: Option<Felt>)
    ensures
        hash == class_hash_of(payload@),
{
    match derive_class_hash(payload) {
        Some(halves) => Some(Felt { hi: halves.0, lo: halves.1 }),
        None => None,
    }
}

/// Whether a derived hash is the claimed one.
pub fn hash_matches(derived: Option<Felt>, claimed: Felt) -> (matches: bool)
    ensures
        matches == (derived == Some(claimed)),
{
    match derived {
        Some(hash) => hash.hi == claimed.hi && hash.lo == claimed.lo,
        None => false,
    }
}

/// Rejects a declare transaction whose claimed compiled-class hash is not the hash derived
/// from the class it carries.
pub fn check_compiled_class_hash(transaction: &DeclareTransaction) -> (checked: Result<
    (),
    ExecutionError,
>)
    ensures
        claimed_hash_holds(*transaction) ==> checked == Ok::<(), ExecutionError>(()),
        !claimed_hash_holds(*transaction) ==> checked == Err::<(), ExecutionError>(
            ExecutionError::CompiledClassHashMismatch,
        ),
{
    match &transaction.contract_class {
        ContractClassPayload::Legacy(_) => Ok(()),
        ContractClassPayload::Compiled(payload) => {
            let derived = get_casm_cotract_class_hash(payload);
            if hash_matches(derived, transaction.compiled_class_hash) {
                Ok(())
            } else {
                Err(ExecutionError::CompiledClassHashMismatch)
            }
        },
    }
}

} // verus!
