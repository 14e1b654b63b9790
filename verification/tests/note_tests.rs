use std::sync::Arc;

use ledger_composer::error::ComposeError;
use ledger_composer::note::{
    create_note_from_package, note_from_program, NoteCreationConfig, MAX_NOTE_INPUTS,
};
use ledger_composer::types::NoteType;
use miden_client::crypto::{FeltRng, RpoRandomCoin};
use miden_client::ClientRng;
use miden_core::{Felt, FieldElement, Word};
use miden_mast_package::{MastArtifact, Package, PackageManifest};
use miden_objects::account::{AccountBuilder, AccountId, AccountType};
use miden_objects::asset::{Asset, FungibleAsset};
use miden_objects::assembly::Assembler;
use miden_objects::note::{
    Note, NoteAssets, NoteExecutionHint, NoteExecutionMode, NoteInputs, NoteMetadata,
    NoteRecipient, NoteScript, NoteTag,
};
use miden_objects::vm::Program;

const INCREMENT_SCRIPT: &str = "begin push.1 push.2 add drop end";

fn word(values: [u64; 4]) -> Word {
    Word::from([
        Felt::new(values[0]),
        Felt::new(values[1]),
        Felt::new(values[2]),
        Felt::new(values[3]),
    ])
}

fn coin(seed: u64) -> RpoRandomCoin {
    RpoRandomCoin::new(word([seed, 1, 2, 3]))
}

fn rng(seed: u64) -> ClientRng {
    ClientRng::new(Box::new(coin(seed)))
}

fn program() -> Program {
    Assembler::default().assemble_program(INCREMENT_SCRIPT).unwrap()
}

fn script_package() -> Arc<Package> {
    Arc::new(Package {
        name: "increment".to_string(),
        mast: MastArtifact::Executable(Arc::new(program())),
        manifest: PackageManifest::default(),
        account_component_metadata_bytes: None,
    })
}

fn library_package() -> Arc<Package> {
    let library = Assembler::default().assemble_library(["export.foo push.1 drop end"]).unwrap();
    Arc::new(Package {
        name: "library".to_string(),
        mast: MastArtifact::Library(Arc::new(library)),
        manifest: PackageManifest::default(),
        account_component_metadata_bytes: None,
    })
}

fn sender() -> AccountId {
    let (account, _) = AccountBuilder::new([3u8; 32])
        .with_auth_component(miden_client::account::component::NoAuth)
        .with_component(miden_client::account::component::BasicWallet)
        .build()
        .unwrap();
    account.id()
}

fn felts(count: usize) -> Vec<Felt> {
    (0..count).map(|value| Felt::new(10 + value as u64)).collect()
}

#[test]
fn default_note_config_is_public_and_empty() {
    let config = NoteCreationConfig::default();
    assert_eq!(config.note_type, NoteType::Public);
    assert_eq!(config.tag, NoteTag::for_local_use_case(0, 0).unwrap());
    assert_eq!(config.tag.as_u32(), 0xc000_0000);
    assert_eq!(config.assets.num_assets(), 0);
    assert!(config.inputs.is_empty());
    assert_eq!(config.execution_hint, NoteExecutionHint::always());
    assert_eq!(config.aux, Felt::ZERO);
    assert_eq!(config.aux.as_int(), 0);
}

#[test]
fn note_holds_what_it_was_made_of() {
    let sender = sender();
    let config = NoteCreationConfig {
        note_type: NoteType::Private,
        tag: NoteTag::for_local_use_case(3, 77).unwrap(),
        inputs: vec![Felt::new(5), Felt::new(4), Felt::new(5), Felt::new(1)],
        execution_hint: NoteExecutionHint::none(),
        aux: Felt::new(99),
        ..NoteCreationConfig::default()
    };
    let note = create_note_from_package(&mut rng(21), script_package(), sender, config).unwrap();

    assert_eq!(note.metadata().sender(), sender);
    assert_eq!(note.metadata().note_type(), miden_objects::note::NoteType::Private);
    assert_eq!(note.metadata().tag(), NoteTag::for_local_use_case(3, 77).unwrap());
    assert_eq!(note.metadata().execution_hint(), NoteExecutionHint::none());
    assert_eq!(note.metadata().aux(), Felt::new(99));
    assert_eq!(note.assets().num_assets(), 0);
    // the inputs keep their order
    assert_eq!(
        note.inputs().values(),
        &[Felt::new(5), Felt::new(4), Felt::new(5), Felt::new(1)]
    );
    // the serial number is the next word of the random source
    assert_eq!(note.serial_num(), coin(21).draw_word());
    let program = program();
    assert_eq!(note.script().root(), program.hash());
    assert_eq!(note.script().entrypoint(), program.entrypoint());
}

#[test]
fn note_is_the_one_the_ledger_crate_makes_by_hand() {
    let sender = sender();
    let inputs = vec![Felt::new(1), Felt::new(2)];
    let config = NoteCreationConfig { inputs: inputs.clone(), ..NoteCreationConfig::default() };
    let serial_num = word([4, 3, 2, 1]);
    let program = program();
    let note = note_from_program(serial_num, &program, sender, config).unwrap();

    let script = NoteScript::from_parts(program.mast_forest().clone(), program.entrypoint());
    let recipient = NoteRecipient::new(serial_num, script, NoteInputs::new(inputs).unwrap());
    let metadata = NoteMetadata::new(
        sender,
        miden_objects::note::NoteType::Public,
        NoteTag::for_local_use_case(0, 0).unwrap(),
        NoteExecutionHint::always(),
        Felt::ZERO,
    )
    .unwrap();
    let by_hand = Note::new(NoteAssets::default(), metadata, recipient);
    assert_eq!(note, by_hand);
    assert_eq!(note.id(), by_hand.id());
}

#[test]
fn each_note_type_reaches_the_note() {
    let sender = sender();
    let program = program();
    for (given, expected) in [
        (NoteType::Public, miden_objects::note::NoteType::Public),
        (NoteType::Private, miden_objects::note::NoteType::Private),
        (NoteType::Encrypted, miden_objects::note::NoteType::Encrypted),
    ] {
        let config = NoteCreationConfig { note_type: given, ..NoteCreationConfig::default() };
        let note = note_from_program(word([1, 1, 1, 1]), &program, sender, config).unwrap();
        assert_eq!(note.metadata().note_type(), expected);
    }
}

#[test]
fn note_carries_at_most_128_inputs() {
    assert_eq!(MAX_NOTE_INPUTS, 128);
    let sender = sender();
    let program = program();

    let config = NoteCreationConfig { inputs: felts(128), ..NoteCreationConfig::default() };
    let note = note_from_program(word([1, 1, 1, 1]), &program, sender, config).unwrap();
    assert_eq!(note.inputs().values(), felts(128).as_slice());

    let config = NoteCreationConfig { inputs: felts(129), ..NoteCreationConfig::default() };
    let result = note_from_program(word([1, 1, 1, 1]), &program, sender, config);
    assert_eq!(result.err(), Some(ComposeError::TooManyInputs));

    let config = NoteCreationConfig { inputs: felts(300), ..NoteCreationConfig::default() };
    let result = create_note_from_package(&mut rng(1), script_package(), sender, config);
    assert_eq!(result.err(), Some(ComposeError::TooManyInputs));
}

#[test]
fn too_many_inputs_are_reported_before_the_tag() {
    let config = NoteCreationConfig {
        note_type: NoteType::Private,
        tag: NoteTag::for_public_use_case(1, 0, NoteExecutionMode::Local).unwrap(),
        inputs: felts(129),
        ..NoteCreationConfig::default()
    };
    let result = note_from_program(word([1, 1, 1, 1]), &program(), sender(), config);
    assert_eq!(result.err(), Some(ComposeError::TooManyInputs));
}

#[test]
fn tag_for_public_notes_refuses_a_private_note() {
    let sender = sender();
    let program = program();
    let public_only = NoteTag::for_public_use_case(1, 0, NoteExecutionMode::Local).unwrap();

    let config = NoteCreationConfig {
        note_type: NoteType::Private,
        tag: public_only,
        ..NoteCreationConfig::default()
    };
    let result = note_from_program(word([1, 1, 1, 1]), &program, sender, config);
    assert_eq!(result.err(), Some(ComposeError::InvalidNoteMetadata));

    let config = NoteCreationConfig {
        note_type: NoteType::Encrypted,
        tag: NoteTag::for_public_use_case(1, 0, NoteExecutionMode::Network).unwrap(),
        ..NoteCreationConfig::default()
    };
    let result = note_from_program(word([1, 1, 1, 1]), &program, sender, config);
    assert_eq!(result.err(), Some(ComposeError::InvalidNoteMetadata));

    // a public note goes with every tag
    let config = NoteCreationConfig { tag: public_only, ..NoteCreationConfig::default() };
    let note = note_from_program(word([1, 1, 1, 1]), &program, sender, config).unwrap();
    assert_eq!(note.metadata().tag(), public_only);
}

#[test]
fn library_package_makes_no_note_and_draws_nothing() {
    let mut rng = rng(8);
    let result = create_note_from_package(
        &mut rng,
        library_package(),
        sender(),
        NoteCreationConfig::default(),
    );
    assert_eq!(result.err(), Some(ComposeError::WrongArtifact));
    assert_eq!(rng.draw_word(), coin(8).draw_word());
}

#[test]
fn notes_differ_by_their_serial_numbers_alone() {
    let sender = sender();
    let package = script_package();
    let mut rng = rng(30);
    let inputs = vec![Felt::new(7), Felt::new(8)];
    let first = create_note_from_package(
        &mut rng,
        package.clone(),
        sender,
        NoteCreationConfig { inputs: inputs.clone(), ..NoteCreationConfig::default() },
    )
    .unwrap();
    let second = create_note_from_package(
        &mut rng,
        package,
        sender,
        NoteCreationConfig { inputs, ..NoteCreationConfig::default() },
    )
    .unwrap();
    assert_eq!(first.script().root(), second.script().root());
    assert_eq!(first.inputs(), second.inputs());
    assert_eq!(first.metadata(), second.metadata());
    assert_ne!(first.serial_num(), second.serial_num());
    assert_ne!(first.recipient().digest(), second.recipient().digest());
    assert_ne!(first.id(), second.id());
    assert_ne!(first.commitment(), second.commitment());
    assert_ne!(first.nullifier(), second.nullifier());
    assert_ne!(first, second);
}

#[test]
fn same_serial_number_gives_the_same_note() {
    let sender = sender();
    let program = program();
    let first =
        note_from_program(word([9, 9, 9, 9]), &program, sender, NoteCreationConfig::default())
            .unwrap();
    let second =
        note_from_program(word([9, 9, 9, 9]), &program, sender, NoteCreationConfig::default())
            .unwrap();
    assert_eq!(first, second);
    assert_eq!(first.id(), second.id());
}

#[test]
fn assets_reach_the_note() {
    let (faucet, _) = AccountBuilder::new([9u8; 32])
        .account_type(AccountType::FungibleFaucet)
        .with_auth_component(miden_client::account::component::NoAuth)
        .with_component(miden_client::account::component::BasicWallet)
        .build()
        .unwrap();
    let asset = Asset::Fungible(FungibleAsset::new(faucet.id(), 25).unwrap());
    let assets = NoteAssets::new(vec![asset]).unwrap();
    let config = NoteCreationConfig { assets: assets.clone(), ..NoteCreationConfig::default() };
    let note = note_from_program(word([2, 2, 2, 2]), &program(), sender(), config).unwrap();
    assert_eq!(note.assets(), &assets);
    assert_eq!(note.assets().num_assets(), 1);
    assert_eq!(note.assets().iter().next(), Some(&asset));
}
