use std::io::Read;

use starknet_simulation::da::state_diff_to_bytes;
use starknet_simulation::state::Felt;
use starknet_simulation::contract_class::{
    collect_entry_points, compress, is_in_field, to_legacy_entry_points_by_type,
    to_rpc_contract_class, CompressedLegacyContractClass, ContractClass, ContractClassV0Wrapper,
    ContractClassV1Wrapper, ContractClassWrapper, ConversionError, EntryPoint, EntryPointGroup,
    EntryPointType, EntrypointMapV0Wrapper, FlattenedSierraClass, LegacyContractEntryPoint,
    LegacyEntryPointsByType, PRIME_HI,
};

fn felt(n: u128) -> Felt {
    Felt { hi: 0, lo: n }
}

fn group(kind: EntryPointType, selectors: &[u128]) -> EntryPointGroup {
    EntryPointGroup {
        kind,
        entry_points: selectors
            .iter()
            .enumerate()
            .map(|(i, selector)| EntryPoint { selector: felt(*selector), offset: 10 * i as u64 })
            .collect(),
    }
}

fn all_groups() -> EntrypointMapV0Wrapper {
    EntrypointMapV0Wrapper {
        groups: vec![
            group(EntryPointType::External, &[5, 6]),
            group(EntryPointType::Constructor, &[1]),
            group(EntryPointType::L1Handler, &[]),
        ],
    }
}

fn gunzip(bytes: &[u8]) -> Vec<u8> {
    let mut decoder = flate2::read::GzDecoder::new(bytes);
    let mut out = Vec::new();
    decoder.read_to_end(&mut out).unwrap();
    out
}

#[test]
fn compress_gives_a_gzip_stream_of_the_json_array() {
    let compressed = compress(&vec![1, 2, 255]).unwrap();
    assert_eq!(&compressed[..2], &[0x1f, 0x8b]);
    assert_ne!(compressed, vec![1, 2, 255]);
    assert_eq!(gunzip(&compressed), b"[1,2,255]".to_vec());
}

#[test]
fn compress_of_nothing_is_the_empty_array() {
    let compressed = compress(&Vec::new()).unwrap();
    assert_eq!(gunzip(&compressed), b"[]".to_vec());
}

#[test]
fn compress_is_repeatable() {
    let data: Vec<u8> = (0..=255).collect();
    assert_eq!(compress(&data), compress(&data.clone()));
}

#[test]
fn field_membership_ends_at_the_prime() {
    assert!(is_in_field(&felt(0)));
    assert!(is_in_field(&Felt { hi: 0, lo: u128::MAX }));
    assert!(is_in_field(&Felt { hi: PRIME_HI - 1, lo: u128::MAX }));
    assert!(is_in_field(&Felt { hi: PRIME_HI, lo: 0 }));
    assert!(!is_in_field(&Felt { hi: PRIME_HI, lo: 1 }));
    assert!(!is_in_field(&Felt { hi: PRIME_HI + 1, lo: 0 }));
    assert!(!is_in_field(&Felt { hi: u128::MAX, lo: u128::MAX }));
}

#[test]
fn entry_points_are_collected_by_kind() {
    let entries = all_groups();
    assert_eq!(
        collect_entry_points(&entries, EntryPointType::External),
        Ok(vec![
            LegacyContractEntryPoint { offset: 0, selector: felt(5) },
            LegacyContractEntryPoint { offset: 10, selector: felt(6) },
        ])
    );
    assert_eq!(collect_entry_points(&entries, EntryPointType::L1Handler), Ok(vec![]));
    let first_wins = EntrypointMapV0Wrapper {
        groups: vec![
            group(EntryPointType::External, &[5]),
            group(EntryPointType::External, &[6]),
        ],
    };
    assert_eq!(
        collect_entry_points(&first_wins, EntryPointType::External),
        Ok(vec![LegacyContractEntryPoint { offset: 0, selector: felt(5) }])
    );
}

#[test]
fn missing_kind_is_an_error() {
    let entries = EntrypointMapV0Wrapper {
        groups: vec![
            group(EntryPointType::Constructor, &[1]),
            group(EntryPointType::L1Handler, &[2]),
        ],
    };
    assert_eq!(
        to_legacy_entry_points_by_type(&entries),
        Err(ConversionError::MissingEntryPoint(EntryPointType::External))
    );
    let empty = EntrypointMapV0Wrapper { groups: vec![] };
    assert_eq!(
        to_legacy_entry_points_by_type(&empty),
        Err(ConversionError::MissingEntryPoint(EntryPointType::Constructor))
    );
}

#[test]
fn selector_outside_the_field_is_an_error() {
    let mut entries = all_groups();
    entries.groups[0].entry_points[1].selector = Felt { hi: PRIME_HI, lo: 1 };
    assert_eq!(to_legacy_entry_points_by_type(&entries), Err(ConversionError::InvalidSelector));
    assert_eq!(
        collect_entry_points(&entries, EntryPointType::Constructor),
        Ok(vec![LegacyContractEntryPoint { offset: 0, selector: felt(1) }])
    );
}

#[test]
fn legacy_class_keeps_entry_points_and_compresses_the_program() {
    let class = ContractClassWrapper::V0(ContractClassV0Wrapper {
        program: b"{\"data\":[]}".to_vec(),
        entry_points_by_type: all_groups(),
    });
    match to_rpc_contract_class(class).unwrap() {
        ContractClass::Legacy(CompressedLegacyContractClass { program, entry_points_by_type }) => {
            assert_eq!(
                entry_points_by_type,
                LegacyEntryPointsByType {
                    constructor: vec![LegacyContractEntryPoint { offset: 0, selector: felt(1) }],
                    external: vec![
                        LegacyContractEntryPoint { offset: 0, selector: felt(5) },
                        LegacyContractEntryPoint { offset: 10, selector: felt(6) },
                    ],
                    l1_handler: vec![],
                }
            );
            assert_eq!(Ok(program.clone()), compress(&b"{\"data\":[]}".to_vec()));
            assert_eq!(gunzip(&program), b"[123,34,100,97,116,97,34,58,91,93,125]".to_vec());
        }
        ContractClass::Sierra(_) => panic!("a legacy class was expected"),
    }
}

#[test]
fn legacy_class_without_a_kind_has_no_rpc_form() {
    let class = ContractClassWrapper::V0(ContractClassV0Wrapper {
        program: vec![1],
        entry_points_by_type: EntrypointMapV0Wrapper {
            groups: vec![group(EntryPointType::Constructor, &[1])],
        },
    });
    assert_eq!(
        to_rpc_contract_class(class),
        Err(ConversionError::MissingEntryPoint(EntryPointType::External))
    );
}

#[test]
fn compiled_class_becomes_a_bare_sierra_class() {
    let class =
        ContractClassWrapper::V1(ContractClassV1Wrapper { compiler_version: "2.1.0".to_string() });
    assert_eq!(
        to_rpc_contract_class(class),
        Ok(ContractClass::Sierra(FlattenedSierraClass {
            sierra_program: vec![],
            contract_class_version: "2.1.0".to_string(),
            abi: String::new(),
        }))
    );
}

#[test]
fn state_diff_words_are_laid_out_big_endian() {
    assert_eq!(state_diff_to_bytes(&vec![]), Vec::<u8>::new());
    let mut one = vec![0u8; 32];
    one[31] = 1;
    assert_eq!(state_diff_to_bytes(&vec![felt(1)]), one);
    let word = Felt {
        hi: 0x0102_0304_0506_0708_090a_0b0c_0d0e_0f10,
        lo: 0x1112_1314_1516_1718_191a_1b1c_1d1e_1f20,
    };
    let bytes = state_diff_to_bytes(&vec![felt(1), word]);
    assert_eq!(bytes.len(), 64);
    assert_eq!(&bytes[..32], &one[..]);
    let expected: Vec<u8> = (1..=32).collect();
    assert_eq!(&bytes[32..], &expected[..]);
    assert_eq!(state_diff_to_bytes(&vec![Felt { hi: u128::MAX, lo: 0 }])[15], 0xff);
    assert_eq!(state_diff_to_bytes(&vec![Felt { hi: u128::MAX, lo: 0 }])[16], 0);
}
