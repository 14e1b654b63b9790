use std::collections::BTreeSet;
use std::sync::Arc;

use ledger_composer::component::{
    account_component_from_package, assemble_component, kinds_of, AccountCreationConfig,
};
use ledger_composer::error::ComposeError;
use ledger_composer::layout::check_layout;
use ledger_composer::package::{build_arguments, ComponentPackage};
use ledger_composer::types::{AccountStorageMode, AccountType, LayoutEntry, SlotKind};
use miden_core::{Felt, Word};
use miden_mast_package::{MastArtifact, Package, PackageManifest};
use miden_objects::account::{
    AccountComponentMetadata, StorageEntry, StorageMap, StorageSlot, WordRepresentation,
};
use miden_objects::assembly::Assembler;
use miden_objects::utils::{Deserializable, Serializable};

const COUNTER_CODE: &str = "
    export.get_count
        push.1 drop
    end
";

const COUNTER_LAYOUT: &str = r#"
    name = "counter"
    description = "counts the notes that were consumed"
    version = "0.1.0"
    supported-types = ["RegularAccountImmutableCode"]

    [[storage]]
    name = "count_map"
    description = "the counter, kept in a map"
    slot = 0
    values = [
        { key = ["0", "0", "0", "1"], value = ["0", "0", "0", "0"] }
    ]
"#;

const THREE_SLOT_LAYOUT: &str = r#"
    name = "ledger"
    description = "a word, then two words that belong together, then a map"
    version = "0.1.0"
    supported-types = ["RegularAccountUpdatableCode"]

    [[storage]]
    name = "owner"
    slot = 0
    value = ["0x1", "0x2", "0x3", "0x4"]

    [[storage]]
    name = "limits"
    slots = [1, 2]
    values = [
        ["0x1", "0x2", "0x3", "0x4"],
        ["0x5", "0x6", "0x7", "0x8"]
    ]

    [[storage]]
    name = "balances"
    slot = 3
    values = [
        { key = "0x1", value = "0x2" }
    ]
"#;

fn word(values: [u64; 4]) -> Word {
    Word::from([
        Felt::new(values[0]),
        Felt::new(values[1]),
        Felt::new(values[2]),
        Felt::new(values[3]),
    ])
}


// Decodes what the package says of its storage, as whoever loads a package
// does before handing it to the library.
fn described(package: Package) -> ComponentPackage {
    let layout = package
        .account_component_metadata_bytes
        .as_deref()
        .and_then(|bytes| AccountComponentMetadata::read_from_bytes(bytes).ok())
        .map(|metadata| {
            metadata
                .storage_entries()
                .iter()
                .map(|entry| match entry {
                    StorageEntry::Value { slot, .. } => LayoutEntry::Word { slot: *slot },
                    StorageEntry::Map { slot, .. } => LayoutEntry::Mapping { slot: *slot },
                    StorageEntry::MultiSlot { slots, .. } => {
                        LayoutEntry::MultiWord { start: slots.start, end: slots.end }
                    },
                })
                .collect()
        });
    ComponentPackage { package: Arc::new(package), layout }
}

fn library_package(code: &str, layout: Option<&str>) -> ComponentPackage {
    let library = Assembler::default().assemble_library([code]).unwrap();
    let metadata = layout.map(|text| AccountComponentMetadata::from_toml(text).unwrap().to_bytes());
    described(Package {
        name: "component".to_string(),
        mast: MastArtifact::Library(Arc::new(library)),
        manifest: PackageManifest::default(),
        account_component_metadata_bytes: metadata,
    })
}

fn program_package() -> ComponentPackage {
    let program = Assembler::default().assemble_program("begin push.1 drop end").unwrap();
    described(Package {
        name: "script".to_string(),
        mast: MastArtifact::Executable(Arc::new(program)),
        manifest: PackageManifest::default(),
        account_component_metadata_bytes: None,
    })
}

fn counter_slot() -> StorageSlot {
    let key = word([0, 0, 0, 1]);
    let value = word([0, 0, 0, 0]);
    StorageSlot::Map(StorageMap::with_entries([(key, value)]).unwrap())
}

fn config_with_slots(slots: Vec<StorageSlot>) -> AccountCreationConfig {
    AccountCreationConfig { storage_slots: slots, ..AccountCreationConfig::immutable_code() }
}

#[test]
fn default_account_config_is_an_updatable_public_wallet() {
    let config = AccountCreationConfig::default();
    assert_eq!(config.account_type, AccountType::RegularAccountUpdatableCode);
    assert_eq!(config.storage_mode, AccountStorageMode::Public);
    assert!(config.storage_slots.is_empty());
    assert!(config.supported_types.is_none());
    assert!(config.with_basic_wallet);
}

#[test]
fn immutable_account_config_has_no_wallet() {
    let config = AccountCreationConfig::immutable_code();
    assert_eq!(config.account_type, AccountType::RegularAccountImmutableCode);
    assert_eq!(config.storage_mode, AccountStorageMode::Public);
    assert!(config.storage_slots.is_empty());
    assert!(config.supported_types.is_none());
    assert!(!config.with_basic_wallet);
}

#[test]
fn component_keeps_slots_and_defaults_to_immutable_code() {
    let package = library_package(COUNTER_CODE, Some(COUNTER_LAYOUT));
    let config = config_with_slots(vec![counter_slot()]);
    let component = account_component_from_package(&package, &config).unwrap();
    assert_eq!(component.storage_slots(), &[counter_slot()]);
    let expected: BTreeSet<_> =
        [miden_objects::account::AccountType::RegularAccountImmutableCode].into_iter().collect();
    assert_eq!(component.supported_types(), &expected);
    assert_eq!(component.library(), package.package.unwrap_library().as_ref());
}

#[test]
fn component_takes_the_given_types_as_they_are() {
    let package = library_package(COUNTER_CODE, Some(COUNTER_LAYOUT));
    let mut config = config_with_slots(vec![counter_slot()]);
    config.supported_types = Some(vec![
        AccountType::FungibleFaucet,
        AccountType::NonFungibleFaucet,
        AccountType::FungibleFaucet,
    ]);
    let component = account_component_from_package(&package, &config).unwrap();
    let expected: BTreeSet<_> = [
        miden_objects::account::AccountType::FungibleFaucet,
        miden_objects::account::AccountType::NonFungibleFaucet,
    ]
    .into_iter()
    .collect();
    assert_eq!(component.supported_types(), &expected);
}

#[test]
fn component_with_no_given_types_supports_the_fallback_alone() {
    let package = library_package(COUNTER_CODE, Some(COUNTER_LAYOUT));
    let component = assemble_component(
        &package,
        vec![counter_slot()],
        &None,
        AccountType::RegularAccountUpdatableCode,
    )
    .unwrap();
    let expected: BTreeSet<_> =
        [miden_objects::account::AccountType::RegularAccountUpdatableCode].into_iter().collect();
    assert_eq!(component.supported_types(), &expected);
}

#[test]
fn empty_list_of_types_supports_nothing() {
    let package = library_package(COUNTER_CODE, Some(COUNTER_LAYOUT));
    let mut config = config_with_slots(vec![counter_slot()]);
    config.supported_types = Some(vec![]);
    let component = account_component_from_package(&package, &config).unwrap();
    assert!(component.supported_types().is_empty());
}

#[test]
fn package_without_metadata_is_refused() {
    let package = library_package(COUNTER_CODE, None);
    let config = config_with_slots(vec![counter_slot()]);
    let result = account_component_from_package(&package, &config);
    assert_eq!(result.unwrap_err(), ComposeError::MissingComponentMetadata);
}

#[test]
fn undecodable_metadata_is_refused() {
    let library = Assembler::default().assemble_library([COUNTER_CODE]).unwrap();
    let package = described(Package {
        name: "component".to_string(),
        mast: MastArtifact::Library(Arc::new(library)),
        manifest: PackageManifest::default(),
        account_component_metadata_bytes: Some(vec![0xff, 0xff, 0xff]),
    });
    let result = account_component_from_package(&package, &config_with_slots(vec![]));
    assert_eq!(result.unwrap_err(), ComposeError::InvalidComponentMetadata);
}

#[test]
fn program_package_makes_no_component() {
    let program = Assembler::default().assemble_program("begin push.1 drop end").unwrap();
    let metadata = AccountComponentMetadata::from_toml(COUNTER_LAYOUT).unwrap().to_bytes();
    let package = described(Package {
        name: "script".to_string(),
        mast: MastArtifact::Executable(Arc::new(program)),
        manifest: PackageManifest::default(),
        account_component_metadata_bytes: Some(metadata),
    });
    let result = account_component_from_package(&package, &config_with_slots(vec![counter_slot()]));
    assert_eq!(result.unwrap_err(), ComposeError::WrongArtifact);
}

#[test]
fn missing_metadata_is_reported_before_the_wrong_artifact() {
    let result = account_component_from_package(&program_package(), &config_with_slots(vec![]));
    assert_eq!(result.unwrap_err(), ComposeError::MissingComponentMetadata);
}

#[test]
fn slot_of_the_wrong_shape_is_a_layout_mismatch() {
    let package = library_package(COUNTER_CODE, Some(COUNTER_LAYOUT));
    let config = config_with_slots(vec![StorageSlot::Value(word([0, 0, 0, 1]))]);
    let result = account_component_from_package(&package, &config);
    assert_eq!(result.unwrap_err(), ComposeError::StorageLayoutMismatch);
}

#[test]
fn missing_slot_is_a_layout_mismatch() {
    let package = library_package(COUNTER_CODE, Some(COUNTER_LAYOUT));
    let result = account_component_from_package(&package, &config_with_slots(vec![]));
    assert_eq!(result.unwrap_err(), ComposeError::StorageLayoutMismatch);
}

#[test]
fn surplus_slot_is_a_layout_mismatch() {
    let package = library_package(COUNTER_CODE, Some(COUNTER_LAYOUT));
    let config = config_with_slots(vec![counter_slot(), StorageSlot::Value(word([1, 2, 3, 4]))]);
    let result = account_component_from_package(&package, &config);
    assert_eq!(result.unwrap_err(), ComposeError::StorageLayoutMismatch);
}

#[test]
fn layout_with_several_entries_is_matched_slot_by_slot() {
    let package = library_package(COUNTER_CODE, Some(THREE_SLOT_LAYOUT));
    let slots = vec![
        StorageSlot::Value(word([1, 2, 3, 4])),
        StorageSlot::Value(word([9, 9, 9, 9])),
        StorageSlot::Value(word([0, 0, 0, 0])),
        StorageSlot::empty_map(),
    ];
    let component =
        account_component_from_package(&package, &config_with_slots(slots.clone()))
            .unwrap();
    assert_eq!(component.storage_slots(), slots.as_slice());

    let mut swapped = slots;
    swapped.swap(2, 3);
    let result = account_component_from_package(&package, &config_with_slots(swapped));
    assert_eq!(result.unwrap_err(), ComposeError::StorageLayoutMismatch);
}

#[test]
fn assembling_twice_gives_the_same_component() {
    let package = library_package(COUNTER_CODE, Some(COUNTER_LAYOUT));
    let mut config = config_with_slots(vec![counter_slot()]);
    config.supported_types = Some(vec![AccountType::RegularAccountUpdatableCode]);
    let first = account_component_from_package(&package, &config).unwrap();
    let second = account_component_from_package(&package, &config).unwrap();
    assert_eq!(first.storage_slots(), second.storage_slots());
    assert_eq!(first.supported_types(), second.supported_types());
    assert_eq!(first, second);
}

#[test]
fn kinds_of_tells_words_from_maps() {
    let slots =
        vec![StorageSlot::Value(word([1, 0, 0, 0])), counter_slot(), StorageSlot::empty_value()];
    assert_eq!(kinds_of(&slots), vec![SlotKind::Word, SlotKind::Mapping, SlotKind::Word]);
    assert_eq!(kinds_of(&Vec::new()), Vec::<SlotKind>::new());
}

#[test]
fn layout_check_accepts_each_slot_declared_once() {
    let layout = vec![
        LayoutEntry::Mapping { slot: 2 },
        LayoutEntry::MultiWord { start: 0, end: 2 },
        LayoutEntry::Word { slot: 3 },
    ];
    let kinds = vec![SlotKind::Word, SlotKind::Word, SlotKind::Mapping, SlotKind::Word];
    assert!(check_layout(&layout, &kinds));
    assert!(check_layout(&Vec::new(), &Vec::new()));
}

#[test]
fn layout_check_refuses_gaps_repeats_and_wrong_shapes() {
    let word_kinds = vec![SlotKind::Word, SlotKind::Word];
    // slot 1 is declared by nobody
    assert!(!check_layout(&vec![LayoutEntry::Word { slot: 0 }], &word_kinds));
    // slot 0 is declared twice
    assert!(!check_layout(
        &vec![LayoutEntry::Word { slot: 0 }, LayoutEntry::MultiWord { start: 0, end: 2 }],
        &word_kinds
    ));
    // slot 2 does not exist
    assert!(!check_layout(&vec![LayoutEntry::MultiWord { start: 0, end: 3 }], &word_kinds));
    // slot 1 is a word, not a map
    assert!(!check_layout(
        &vec![LayoutEntry::Word { slot: 0 }, LayoutEntry::Mapping { slot: 1 }],
        &word_kinds
    ));
    // an empty range declares nothing
    assert!(!check_layout(&vec![LayoutEntry::MultiWord { start: 2, end: 0 }], &word_kinds));
    assert!(check_layout(&vec![LayoutEntry::MultiWord { start: 2, end: 0 }], &Vec::new()));
    // the last slot index there is
    assert!(!check_layout(&vec![LayoutEntry::Word { slot: 255 }], &word_kinds));
}

#[test]
fn layout_comes_decoded_with_the_package() {
    let package = library_package(COUNTER_CODE, Some(THREE_SLOT_LAYOUT));
    assert_eq!(
        package.layout,
        Some(vec![
            LayoutEntry::Word { slot: 0 },
            LayoutEntry::MultiWord { start: 1, end: 3 },
            LayoutEntry::Mapping { slot: 3 },
        ])
    );
    assert_eq!(library_package(COUNTER_CODE, None).layout, None);
    // what was decoded counts, whatever the description says
    let relaid = ComponentPackage {
        package: package.package.clone(),
        layout: Some(vec![LayoutEntry::Mapping { slot: 0 }]),
    };
    let component =
        account_component_from_package(&relaid, &config_with_slots(vec![counter_slot()])).unwrap();
    assert_eq!(component.storage_slots(), &[counter_slot()]);
    // a description without a decoded layout is not valid
    let undecoded = ComponentPackage { package: package.package.clone(), layout: None };
    let result = account_component_from_package(&undecoded, &config_with_slots(vec![]));
    assert_eq!(result.unwrap_err(), ComposeError::InvalidComponentMetadata);
}

#[test]
fn build_command_names_profile_and_manifest() {
    assert_eq!(
        build_arguments("../contracts/counter-account/Cargo.toml", true),
        vec![
            "cargo",
            "miden",
            "build",
            "--release",
            "--manifest-path",
            "../contracts/counter-account/Cargo.toml"
        ]
    );
    assert_eq!(
        build_arguments("", false),
        vec!["cargo", "miden", "build", "--debug", "--manifest-path", ""]
    );
}

#[test]
fn copied_config_assembles_the_same_component() {
    let package = library_package(COUNTER_CODE, Some(COUNTER_LAYOUT));
    let config = AccountCreationConfig {
        account_type: AccountType::NonFungibleFaucet,
        storage_mode: AccountStorageMode::Network,
        storage_slots: vec![counter_slot()],
        supported_types: Some(vec![AccountType::NonFungibleFaucet, AccountType::FungibleFaucet]),
        with_basic_wallet: true,
    };
    let copy = config.clone();
    assert_eq!(copy.account_type, config.account_type);
    assert_eq!(copy.storage_mode, config.storage_mode);
    assert_eq!(copy.storage_slots, config.storage_slots);
    assert_eq!(copy.supported_types, config.supported_types);
    assert_eq!(copy.with_basic_wallet, config.with_basic_wallet);
    assert_eq!(
        account_component_from_package(&package, &copy).unwrap(),
        account_component_from_package(&package, &config).unwrap()
    );
    let plain = AccountCreationConfig::immutable_code().clone();
    assert!(plain.supported_types.is_none());
    assert!(plain.storage_slots.is_empty());
}

fn layout_of_words(count: usize) -> String {
    let mut text = String::from(
        r#"
            name = "wide"
            description = "many words"
            version = "0.1.0"
            supported-types = ["RegularAccountImmutableCode"]
        "#,
    );
    for slot in 0..count {
        text.push_str(&format!(
            r#"
            [[storage]]
            name = "word{slot}"
            slot = {slot}
            value = ["0x0", "0x0", "0x0", "0x0"]
            "#
        ));
    }
    text
}

#[test]
fn component_holds_up_to_255_slots() {
    let slots = |count: usize| vec![StorageSlot::Value(word([0, 0, 0, 0])); count];

    let package = library_package(COUNTER_CODE, Some(&layout_of_words(255)));
    let component =
        account_component_from_package(&package, &config_with_slots(slots(255))).unwrap();
    assert_eq!(component.storage_slots().len(), 255);

    let result = account_component_from_package(&package, &config_with_slots(slots(254)));
    assert_eq!(result.unwrap_err(), ComposeError::StorageLayoutMismatch);
    let result = account_component_from_package(&package, &config_with_slots(slots(256)));
    assert_eq!(result.unwrap_err(), ComposeError::StorageLayoutMismatch);
}

// The bytes of a component description, written field by field. Nothing
// holds the entries to the rules that a description is built under: their
// slots may repeat, leave gaps, or reach the last index.
fn unchecked_metadata(entries: Vec<StorageEntry>) -> Vec<u8> {
    let mut bytes = Vec::new();
    "unchecked".to_string().write_into(&mut bytes);
    "written by hand".to_string().write_into(&mut bytes);
    "0.1.0".to_string().write_into(&mut bytes);
    BTreeSet::<miden_objects::account::AccountType>::new().write_into(&mut bytes);
    entries.write_into(&mut bytes);
    bytes
}

fn unchecked_package(entries: Vec<StorageEntry>) -> ComponentPackage {
    let library = Assembler::default().assemble_library([COUNTER_CODE]).unwrap();
    described(Package {
        name: "component".to_string(),
        mast: MastArtifact::Library(Arc::new(library)),
        manifest: PackageManifest::default(),
        account_component_metadata_bytes: Some(unchecked_metadata(entries)),
    })
}

fn word_entry(slot: u8) -> StorageEntry {
    let zero = [Felt::new(0), Felt::new(0), Felt::new(0), Felt::new(0)];
    StorageEntry::new_value(slot, WordRepresentation::from(zero))
}

#[test]
fn component_never_holds_256_slots() {
    // 256 slots agree with a layout of 256 entries, and are still too many
    let entries: Vec<StorageEntry> = (0..=255u8).map(word_entry).collect();
    let slots = vec![StorageSlot::Value(word([0, 0, 0, 0])); 256];
    let result =
        account_component_from_package(&unchecked_package(entries), &config_with_slots(slots));
    assert_eq!(result.unwrap_err(), ComposeError::StorageLayoutMismatch);
}

#[test]
fn layout_that_breaks_the_rules_matches_no_slots() {
    let word_slots = |count: usize| vec![StorageSlot::Value(word([0, 0, 0, 0])); count];

    // slot 0 twice
    let package = unchecked_package(vec![word_entry(0), word_entry(0)]);
    for count in 0..4 {
        let result =
            account_component_from_package(&package, &config_with_slots(word_slots(count)));
        assert_eq!(result.unwrap_err(), ComposeError::StorageLayoutMismatch);
    }

    // slot 1 left out
    let package = unchecked_package(vec![word_entry(0), word_entry(2)]);
    for count in 0..4 {
        let result =
            account_component_from_package(&package, &config_with_slots(word_slots(count)));
        assert_eq!(result.unwrap_err(), ComposeError::StorageLayoutMismatch);
    }

    // the entries may come in any order
    let package = unchecked_package(vec![word_entry(1), word_entry(0)]);
    let component =
        account_component_from_package(&package, &config_with_slots(word_slots(2))).unwrap();
    assert_eq!(component.storage_slots().len(), 2);
}
