//! Contract classes as the node stores them, and their form on the RPC interface.

use vstd::prelude::*;
use crate::state::Felt;

verus! {

/// The kinds of entry point of a contract.
#[derive(Clone, Copy, Debug, PartialEq, Eq, Structural)]
pub enum EntryPointType {
    Constructor,
    External,
    L1Handler,
}

/// An entry point as the node stores it.
#[derive(Clone, Copy, Debug, PartialEq, Eq, Structural)]
pub struct EntryPoint {
    pub selector: Felt,
    pub offset: u64,
}

/// The entry points of one kind.
#[derive(Clone, Debug, PartialEq, Eq)]
pub struct EntryPointGroup {
    pub kind: EntryPointType,
    pub entry_points: Vec<EntryPoint>,
}

/// The entry points of a legacy class, kind by kind.
#[derive(Clone, Debug, PartialEq, Eq)]
pub struct EntrypointMapV0Wrapper {
    pub groups: Vec<EntryPointGroup>,
}

/// A legacy class as the node stores it.
#[derive(Clone, Debug, PartialEq, Eq)]
pub struct ContractClassV0Wrapper {
    /// The program, serialized.
    pub program: Vec<u8>,
    pub entry_points_by_type: EntrypointMapV0Wrapper,
}

/// A compiled class as the node stores it.
#[derive(Clone, Debug, PartialEq, Eq)]
pub struct ContractClassV1Wrapper {
    pub compiler_version: String,
}

/// A class as the node stores it.
#[derive(Clone, Debug, PartialEq, Eq)]
pub enum ContractClassWrapper {
    V0(ContractClassV0Wrapper),
    V1(ContractClassV1Wrapper),
}

/// An entry point of a legacy class on the RPC interface.
#[derive(Clone, Copy, Debug, PartialEq, Eq, Structural)]
pub struct LegacyContractEntryPoint {
    pub offset: u64,
    pub selector: Felt,
}

/// The entry points of a legacy class on the RPC interface.
#[derive(Clone, Debug, PartialEq, Eq)]
pub struct LegacyEntryPointsByType {
    pub constructor: Vec<LegacyContractEntryPoint>,
    pub external: Vec<LegacyContractEntryPoint>,
    pub l1_handler: Vec<LegacyContractEntryPoint>,
}

/// A legacy class on the RPC interface: its program compressed, no ABI.
#[derive(Clone, Debug, PartialEq, Eq)]
pub struct CompressedLegacyContractClass {
    pub program: Vec<u8>,
    pub entry_points_by_type: LegacyEntryPointsByType,
}

/// A Sierra class on the RPC interface.
#[derive(Clone, Debug, PartialEq, Eq)]
pub struct FlattenedSierraClass {
    pub sierra_program: Vec<Felt>,
    pub contract_class_version: String,
    pub abi: String,
}

/// A class on the RPC interface.
#[derive(Clone, Debug, PartialEq, Eq)]
pub enum ContractClass {
    Sierra(FlattenedSierraClass),
    Legacy(CompressedLegacyContractClass),
}

/// Why a stored class has no RPC form.
#[derive(Clone, Copy, Debug, PartialEq, Eq, Structural)]
pub enum ConversionError {
    /// The class lists no entry points of this kind.
    MissingEntryPoint(EntryPointType),
    /// A selector is not an element of the field.
    InvalidSelector,
    /// The program could not be compressed.
    Compression,
}

/// The upper half of the field's prime, 2^251 + 17 * 2^192 + 1. Its lower half is 1.
pub const PRIME_HI: u128 = 0x0800_0000_0000_0011_0000_0000_0000_0000;

/// Whether a 256-bit number is an element of the field: whether it is below the prime.
pub open spec fn in_field(value: Felt) -> bool {
    value.hi < PRIME_HI || (value.hi == PRIME_HI && value.lo == 0)
}

/// The gzip stream, at the fastest level, of the JSON array that lists `data` byte by
/// byte; `None` where the encoder fails.
pub uninterp spec fn gzip_of_json(data: Seq<u8>) -> Option<Seq<u8>>;

/// Writes `data` as JSON with `serde_json::to_writer` into a `flate2::write::GzEncoder`
/// made with `Compression::fast()`, and takes the compressed bytes with `finish`.
///
/// Not proved: that the bytes are `gzip_of_json` of the data, that is, that they depend on
/// the data alone.
#[verifier::external_body]
fn gzip_json(data: &Vec<u8>) -> (compressed: Option<Vec<u8>>)
    ensures
        match compressed {
            Some(bytes) => gzip_of_json(data@) == Some(bytes@),
            None => gzip_of_json(data@).is_none(),
        },
{
    let mut gzip_encoder = flate2::write::GzEncoder::new(Vec::new(), flate2::Compression::fast());
    serde_json::to_writer(&mut gzip_encoder, data.as_slice()).ok()?;
    gzip_encoder.finish().ok()
}

/// Returns a compressed vector of bytes.
pub fn compress(data: &Vec<u8>) -> (compressed: Result<Vec<u8>, ConversionError>)
    ensures
        match compressed {
            Ok(bytes) => gzip_of_json(data@) == Some(bytes@),
            Err(e) => gzip_of_json(data@).is_none() && e == ConversionError::Compression,
        },
{
    match gzip_json(data) {
        Some(bytes) => Ok(bytes),
        None => Err(ConversionError::Compression),
    }
}

/// The entry points of the first group of the given kind.
pub open spec fn group_of(groups: Seq<EntryPointGroup>, kind: EntryPointType) -> Option<
    Seq<EntryPoint>,
>
    decreases groups.len(),
{
    if groups.len() == 0 {
        None
    } else if groups[0].kind == kind {
        Some(groups[0].entry_points@)
    } else {
        group_of(groups.skip(1), kind)
    }
}

/// The RPC form of an entry point.
pub open spec fn legacy_form(entry_point: EntryPoint) -> LegacyContractEntryPoint {
    LegacyContractEntryPoint { offset: entry_point.offset, selector: entry_point.selector }
}

/// The RPC form of the entry points of one kind: an error where the kind is missing or a
/// selector lies outside the field.
pub open spec fn legacy_group(groups: Seq<EntryPointGroup>, kind: EntryPointType) -> Result<
    Seq<LegacyContractEntryPoint>,
    ConversionError,
> {
    match group_of(groups, kind) {
        None => Err(ConversionError::MissingEntryPoint(kind)),
        Some(entry_points) => if forall|i: int|
            0 <= i < entry_points.len() ==> in_field(#[trigger] entry_points[i].selector) {
            Ok(entry_points.map_values(|entry_point: EntryPoint| legacy_form(entry_point)))
        } else {
            Err(ConversionError::InvalidSelector)
        },
    }
}

/// Whether a 256-bit number is an element of the field.
pub fn is_in_field(value: &Felt) -> (valid: bool)
    ensures
        valid == in_field(*value),
{
    value.hi < PRIME_HI || (value.hi == PRIME_HI && value.lo == 0)
}

/// Collects the entry points of one kind in their RPC form.
pub fn collect_entry_points(
    entries: &EntrypointMapV0Wrapper,
    entry_point_type: EntryPointType,
) -> (collected: Result<Vec<LegacyContractEntryPoint>, ConversionError>)
    ensures
        match (collected, legacy_group(entries.groups@, entry_point_type)) {
            (Ok(list), Ok(expected)) => list@ == expected,
            (Err(e), Err(expected)) => e == expected,
            _ => false,
        },
{
    let mut at: usize = 0;
    proof {
        assert(entries.groups@.skip(0) =~= entries.groups@);
    }
    while at < entries.groups.len()
        invariant
            at <= entries.groups@.len(),
            group_of(entries.groups@, entry_point_type) == group_of(
                entries.groups@.skip(at as int),
                entry_point_type,
            ),
        decreases entries.groups@.len() - at,
    {
        let group = &entries.groups[at];
        proof {
            assert(entries.groups@.skip(at as int)[0] == entries.groups@[at as int]);
            assert(entries.groups@.skip(at as int).skip(1) =~= entries.groups@.skip(at + 1));
        }
        let found = match (group.kind, entry_point_type) {
            (EntryPointType::Constructor, EntryPointType::Constructor) => true,
            (EntryPointType::External, EntryPointType::External) => true,
            (EntryPointType::L1Handler, EntryPointType::L1Handler) => true,
            _ => false,
        };
        if found {
            let mut list: Vec<LegacyContractEntryPoint> = Vec::new();
            let mut i: usize = 0;
            proof {
                assert(group.kind == entry_point_type);
                assert(group_of(entries.groups@.skip(at as int), entry_point_type) == Some(
                    group.entry_points@,
                ));
            }
            while i < group.entry_points.len()
                invariant
                    group_of(entries.groups@, entry_point_type) == Some(group.entry_points@),
                    i <= group.entry_points@.len(),
                    list@.len() == i,
                    forall|j: int|
                        0 <= j < i ==> in_field(#[trigger] group.entry_points@[j].selector),
                    forall|j: int|
                        0 <= j < i ==> list@[j] == legacy_form(group.entry_points@[j]),
                decreases group.entry_points@.len() - i,
            {
                let entry_point = group.entry_points[i];
                if !is_in_field(&entry_point.selector) {
                    proof {
                        assert(!in_field(group.entry_points@[i as int].selector));
                    }
                    return Err(ConversionError::InvalidSelector);
                }
                list.push(
                    LegacyContractEntryPoint {
                        offset: entry_point.offset,
                        selector: entry_point.selector,
                    },
                );
                i = i + 1;
            }
            proof {
                assert(list@ =~= group.entry_points@.map_values(
                    |entry_point: EntryPoint| legacy_form(entry_point),
                ));
            }
            return Ok(list);
        }
        at = at + 1;
    }
    proof {
        assert(entries.groups@.skip(at as int).len() == 0);
    }
    Err(ConversionError::MissingEntryPoint(entry_point_type))
}

/// The first failure among three conversions made in turn, if any fails.
pub open spec fn first_failure(
    constructor: Result<Seq<LegacyContractEntryPoint>, ConversionError>,
    external: Result<Seq<LegacyContractEntryPoint>, ConversionError>,
    l1_handler: Result<Seq<LegacyContractEntryPoint>, ConversionError>,
) -> Option<ConversionError> {
    match constructor {
        Err(e) => Some(e),
        Ok(_) => match external {
            Err(e) => Some(e),
            Ok(_) => match l1_handler {
                Err(e) => Some(e),
                Ok(_) => None,
            },
        },
    }
}

/// Collects the entry points of a legacy class in their RPC form: the constructors, the
/// external entry points and the message handlers, in that order.
pub fn to_legacy_entry_points_by_type(entries: &EntrypointMapV0Wrapper) -> (converted: Result<
    LegacyEntryPointsByType,
    ConversionError,
>)
    ensures
        ({
            let constructor = legacy_group(entries.groups@, EntryPointType::Constructor);
            let external = legacy_group(entries.groups@, EntryPointType::External);
            let l1_handler = legacy_group(entries.groups@, EntryPointType::L1Handler);
            match converted {
                Ok(by_type) => {
                    &&& constructor == Ok::<Seq<LegacyContractEntryPoint>, ConversionError>(
                        by_type.constructor@,
                    )
                    &&& external == Ok::<Seq<LegacyContractEntryPoint>, ConversionError>(
                        by_type.external@,
                    )
                    &&& l1_handler == Ok::<Seq<LegacyContractEntryPoint>, ConversionError>(
                        by_type.l1_handler@,
                    )
                },
                Err(e) => first_failure(constructor, external, l1_handler) == Some(e),
            }
        }),
{
    let constructor = match collect_entry_points(entries, EntryPointType::Constructor) {
        Ok(list) => list,
        Err(e) => {
            return Err(e);
        },
    };
    let external = match collect_entry_points(entries, EntryPointType::External) {
        Ok(list) => list,
        Err(e) => {
            return Err(e);
        },
    };
    let l1_handler = match collect_entry_points(entries, EntryPointType::L1Handler) {
        Ok(list) => list,
        Err(e) => {
            return Err(e);
        },
    };
    Ok(LegacyEntryPointsByType { constructor, external, l1_handler })
}

/// Returns the RPC form of a stored class.
///
/// A legacy class keeps its entry points and has its program compressed; the entry points
/// are converted first, so that their failure comes before that of the compression. A
/// compiled class gives a Sierra class that carries the compiler version and nothing else.
pub fn to_rpc_contract_class(contract_class_wrapped: ContractClassWrapper) -> (class: Result<
    ContractClass,
    ConversionError,
>)
    ensures
        match contract_class_wrapped {
            ContractClassWrapper::V0(legacy) => {
                let groups = legacy.entry_points_by_type.groups@;
                let constructor = legacy_group(groups, EntryPointType::Constructor);
                let external = legacy_group(groups, EntryPointType::External);
                let l1_handler = legacy_group(groups, EntryPointType::L1Handler);
                match class {
                    Ok(ContractClass::Legacy(converted)) => {
                        &&& gzip_of_json(legacy.program@) == Some(converted.program@)
                        &&& constructor == Ok::<Seq<LegacyContractEntryPoint>, ConversionError>(
                            converted.entry_points_by_type.constructor@,
                        )
                        &&& external == Ok::<Seq<LegacyContractEntryPoint>, ConversionError>(
                            converted.entry_points_by_type.external@,
                        )
                        &&& l1_handler == Ok::<Seq<LegacyContractEntryPoint>, ConversionError>(
                            converted.entry_points_by_type.l1_handler@,
                        )
                    },
                    Ok(ContractClass::Sierra(_)) => false,
                    Err(e) => match first_failure(constructor, external, l1_handler) {
                        Some(failure) => e == failure,
                        None => e == ConversionError::Compression && gzip_of_json(
                            legacy.program@,
                        ).is_none(),
                    },
                }
            },
            ContractClassWrapper::V1(compiled) => match class {
                Ok(ContractClass::Sierra(converted)) => {
                    &&& converted.sierra_program@.len() == 0
                    &&& converted.contract_class_version == compiled.compiler_version
                    &&& converted.abi@.len() == 0
                },
                _ => false,
            },
        },
{
    match contract_class_wrapped {
        ContractClassWrapper::V0(legacy) => {
            let entry_points_by_type = match to_legacy_entry_points_by_type(
                &legacy.entry_points_by_type,
            ) {
                Ok(by_type) => by_type,
                Err(e) => {
                    return Err(e);
                },
            };
            let compressed_program = match compress(&legacy.program) {
                Ok(bytes) => bytes,
                Err(e) => {
                    return Err(e);
                },
            };
            Ok(
                ContractClass::Legacy(
                    CompressedLegacyContractClass {
                        program: compressed_program,
                        entry_points_by_type,
                    },
                ),
            )
        },
        ContractClassWrapper::V1(compiled) => Ok(
            ContractClass::Sierra(
                FlattenedSierraClass {
                    sierra_program: Vec::new(),
                    contract_class_version: compiled.compiler_version,
                    abi: String::new(),
                },
            ),
        ),
    }
}

} // verus!
