//! Building notes: a script taken from a package, a serial number drawn from
//! the session's random source, and the caller's inputs and metadata.

use miden_client::ClientRng;
use miden_core::{Felt, Word};
use miden_mast_package::Package;
use miden_objects::account::AccountId;
use miden_objects::note::{Note, NoteAssets, NoteExecutionHint, NoteTag};
use miden_objects::vm::Program;
use std::sync::Arc;
use vstd::pervasive::unreached;
use vstd::prelude::*;

use crate::error::ComposeError;
use crate::ledger::field::{felt_value, zero_felt};
use crate::ledger::note::{
    always_hint, assets_count, hint_is_always, inputs_of, local_use_case_tag, metadata_of,
    new_note, no_assets, note_from, note_inputs, note_metadata, note_recipient, note_script,
    note_view, recipient_of, script_of, tag_allows, tag_bits, MetadataView, NoteView,
    RecipientView,
};
use crate::ledger::package::{package_program, package_view, Artifact};
use crate::ledger::random::draw_word;
use crate::types::NoteType;

verus! {

/// The most inputs that a note may carry.
pub const MAX_NOTE_INPUTS: usize = 128;

/// How a note is to be made.
pub struct NoteCreationConfig {
    /// How much of the note the ledger gets to see.
    pub note_type: NoteType,
    /// The tag by which recipients find the note.
    pub tag: NoteTag,
    /// The assets that the note carries.
    pub assets: NoteAssets,
    /// The inputs of the note's script, in the order in which it reads them.
    pub inputs: Vec<Felt>,
    /// When the note can be consumed.
    pub execution_hint: NoteExecutionHint,
    /// A value of the caller's own.
    pub aux: Felt,
}

impl Default for NoteCreationConfig {
    /// A public note with the local-use tag of use case 0 and payload 0, no
    /// assets, no inputs, consumable at any time, with 0 as auxiliary value.
    fn default() -> (config: Self)
        ensures
            config.note_type == NoteType::Public,
            tag_bits(config.tag) == 0xc000_0000,
            assets_count(config.assets) == 0,
            config.inputs@.len() == 0,
            hint_is_always(config.execution_hint),
            felt_value(config.aux) == 0,
    {
        let tag = match local_use_case_tag(0, 0) {
            Ok(tag) => tag,
            Err(_) => unreached(),
        };
        NoteCreationConfig {
            note_type: NoteType::Public,
            tag,
            assets: no_assets(),
            inputs: Vec::new(),
            execution_hint: always_hint(),
            aux: zero_felt(),
        }
    }
}

/// The note that the ledger makes of these parts.
pub open spec fn note_built(
    serial_num: Word,
    program: Program,
    sender_id: AccountId,
    config: NoteCreationConfig,
) -> Note {
    note_from(
        config.assets,
        metadata_of(sender_id, config.note_type, config.tag, config.execution_hint, config.aux),
        recipient_of(serial_num, script_of(program), inputs_of(config.inputs@)),
    )
}

/// What a note made of these parts holds.
pub open spec fn note_contents(
    serial_num: Word,
    program: Program,
    sender_id: AccountId,
    config: NoteCreationConfig,
) -> NoteView {
    NoteView {
        assets: config.assets,
        metadata: MetadataView {
            sender: sender_id,
            note_type: config.note_type,
            tag: config.tag,
            execution_hint: config.execution_hint,
            aux: config.aux,
        },
        recipient: RecipientView {
            serial_num,
            script: script_of(program),
            inputs: config.inputs@,
        },
    }
}

/// `result` is what making a note of these parts gives: a failure on more
/// than 128 inputs, else a failure where the tag does not go with the note
/// type, else the note that the ledger makes of the parts, which holds them.
pub open spec fn note_made(
    serial_num: Word,
    program: Program,
    sender_id: AccountId,
    config: NoteCreationConfig,
    result: Result<Note, ComposeError>,
) -> bool {
    if config.inputs@.len() > MAX_NOTE_INPUTS {
        result == Err::<Note, ComposeError>(ComposeError::TooManyInputs)
    } else if !tag_allows(config.tag, config.note_type) {
        result == Err::<Note, ComposeError>(ComposeError::InvalidNoteMetadata)
    } else {
        &&& result == Ok::<Note, ComposeError>(note_built(serial_num, program, sender_id, config))
        &&& note_view(result->Ok_0) == note_contents(serial_num, program, sender_id, config)
    }
}

/// Makes the note with the given serial number whose script is `program`.
///
/// The inputs keep their order. A public note is never refused for its tag.
pub fn note_from_program(
    serial_num: Word,
    program: &Program,
    sender_id: AccountId,
    config: NoteCreationConfig,
) -> (result: Result<Note, ComposeError>)
    ensures
        note_made(serial_num, *program, sender_id, config, result),
        config.note_type == NoteType::Public && config.inputs@.len() <= MAX_NOTE_INPUTS
            ==> result is Ok,
{
    let script = note_script(program);
    let inputs = match note_inputs(config.inputs) {
        Err(_) => {
            return Err(ComposeError::TooManyInputs);
        },
        Ok(inputs) => inputs,
    };
    let recipient = note_recipient(serial_num, script, inputs);
    let metadata = match note_metadata(
        sender_id,
        config.note_type,
        config.tag,
        config.execution_hint,
        config.aux,
    ) {
        Err(_) => {
            return Err(ComposeError::InvalidNoteMetadata);
        },
        Ok(metadata) => metadata,
    };
    Ok(new_note(config.assets, metadata, recipient))
}

/// `result` is what [`create_note_from_package`] gives: a failure where the
/// package holds no program, with nothing drawn from the random source, else
/// what making the note with some serial number gives.
pub open spec fn package_note_made(
    rng_before: ClientRng,
    rng_after: ClientRng,
    package: Package,
    sender_id: AccountId,
    config: NoteCreationConfig,
    result: Result<Note, ComposeError>,
) -> bool {
    match package_view(package).artifact {
        Artifact::Library(_) => result == Err::<Note, ComposeError>(ComposeError::WrongArtifact)
            && rng_after == rng_before,
        Artifact::Executable(program) => exists|serial_num: Word|
            note_made(serial_num, program, sender_id, config, result),
    }
}

/// Makes a note whose script is the program of `package`, with a serial
/// number drawn from `rng`.
///
/// No serial number is drawn where the package holds no program. A public
/// note with at most 128 inputs is made of every package that holds a
/// program.
pub fn create_note_from_package(
    rng: &mut ClientRng,
    package: Arc<Package>,
    sender_id: AccountId,
    config: NoteCreationConfig,
) -> (result: Result<Note, ComposeError>)
    ensures
        package_note_made(*old(rng), *final(rng), *package, sender_id, config, result),
        package_view(*package).artifact is Executable && config.note_type == NoteType::Public
            && config.inputs@.len() <= MAX_NOTE_INPUTS ==> result is Ok,
        result is Ok ==> package_view(*package).artifact is Executable,
{
    let program = match package_program(&package) {
        None => {
            return Err(ComposeError::WrongArtifact);
        },
        Some(program) => program,
    };
    let serial_num = draw_word(rng);
    let result = note_from_program(serial_num, &program, sender_id, config);
    assert(package_view(*package).artifact->Executable_0 == *program);
    assert(note_made(serial_num, *program, sender_id, config, result));
    result
}

/// Two notes that were made with different serial numbers are different
/// notes with different recipients, whatever else they share.
pub proof fn lemma_serial_numbers_tell_notes_apart(
    first_serial: Word,
    second_serial: Word,
    program: Program,
    sender_id: AccountId,
    first_config: NoteCreationConfig,
    second_config: NoteCreationConfig,
    first: Note,
    second: Note,
)
    requires
        note_made(first_serial, program, sender_id, first_config, Ok(first)),
        note_made(second_serial, program, sender_id, second_config, Ok(second)),
        first_serial != second_serial,
    ensures
        note_view(first).recipient != note_view(second).recipient,
        first != second,
{
}

/// Two notes that were made of the same parts, serial number included, are
/// the same note.
pub proof fn lemma_note_is_determined_by_its_parts(
    serial_num: Word,
    program: Program,
    sender_id: AccountId,
    config: NoteCreationConfig,
    first: Result<Note, ComposeError>,
    second: Result<Note, ComposeError>,
)
    requires
        note_made(serial_num, program, sender_id, config, first),
        note_made(serial_num, program, sender_id, config, second),
    ensures
        first == second,
{
}

} // verus!
