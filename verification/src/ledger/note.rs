use miden_core::{Felt, Word};
use miden_objects::account::AccountId;
use miden_objects::note::{
    Note, NoteAssets, NoteExecutionHint, NoteInputs, NoteMetadata, NoteRecipient, NoteScript,
    NoteTag,
};
use miden_objects::vm::Program;
use miden_objects::NoteError;
use vstd::prelude::*;

use crate::types::NoteType;

verus! {

/// `miden_objects::note::Note`.
#[verifier::external_type_specification]
#[verifier::external_body]
pub struct ExNote(Note);

/// `miden_objects::note::NoteAssets`: the assets that a note carries.
#[verifier::external_type_specification]
#[verifier::external_body]
pub struct ExNoteAssets(NoteAssets);

/// `miden_objects::note::NoteExecutionHint`: when a note can be consumed.
#[verifier::external_type_specification]
#[verifier::external_body]
pub struct ExNoteExecutionHint(NoteExecutionHint);

/// `miden_objects::note::NoteInputs`: the checked inputs of a note script.
#[verifier::external_type_specification]
#[verifier::external_body]
pub struct ExNoteInputs(NoteInputs);

/// `miden_objects::note::NoteMetadata`.
#[verifier::external_type_specification]
#[verifier::external_body]
pub struct ExNoteMetadata(NoteMetadata);

/// `miden_objects::note::NoteRecipient`: serial number, script and inputs,
/// with the digest that commits to them.
#[verifier::external_type_specification]
#[verifier::external_body]
pub struct ExNoteRecipient(NoteRecipient);

/// `miden_objects::note::NoteScript`.
#[verifier::external_type_specification]
#[verifier::external_body]
pub struct ExNoteScript(NoteScript);

/// `miden_objects::note::NoteTag`: the routing tag of a note.
#[verifier::external_type_specification]
#[verifier::external_body]
pub struct ExNoteTag(NoteTag);

/// `miden_objects::NoteError`.
#[verifier::external_type_specification]
#[verifier::external_body]
pub struct ExNoteError(NoteError);

/// What a note recipient holds.
pub struct RecipientView {
    pub serial_num: Word,
    pub script: NoteScript,
    pub inputs: Seq<Felt>,
}

/// What the metadata of a note holds.
pub struct MetadataView {
    pub sender: AccountId,
    pub note_type: NoteType,
    pub tag: NoteTag,
    pub execution_hint: NoteExecutionHint,
    pub aux: Felt,
}

/// What a note holds.
pub struct NoteView {
    pub assets: NoteAssets,
    pub metadata: MetadataView,
    pub recipient: RecipientView,
}

/// The contents of a note: its assets, its metadata and its recipient.
pub uninterp spec fn note_view(note: Note) -> NoteView;

/// The contents of a recipient: its fields but the digest.
pub uninterp spec fn recipient_view(recipient: NoteRecipient) -> RecipientView;

/// The contents of note metadata: its fields.
pub uninterp spec fn metadata_view(metadata: NoteMetadata) -> MetadataView;

/// The values of note inputs, in order.
pub uninterp spec fn inputs_view(inputs: NoteInputs) -> Seq<Felt>;

/// The inputs that `NoteInputs::new` makes of `values`, where they are not
/// too many.
pub uninterp spec fn inputs_of(values: Seq<Felt>) -> NoteInputs;

/// The recipient that `NoteRecipient::new` makes of its arguments.
pub uninterp spec fn recipient_of(
    serial_num: Word,
    script: NoteScript,
    inputs: NoteInputs,
) -> NoteRecipient;

/// The metadata that `NoteMetadata::new` makes of its arguments, where the
/// tag goes with the note type.
pub uninterp spec fn metadata_of(
    sender: AccountId,
    note_type: NoteType,
    tag: NoteTag,
    execution_hint: NoteExecutionHint,
    aux: Felt,
) -> NoteMetadata;

/// The note that `Note::new` makes of its arguments.
pub uninterp spec fn note_from(
    assets: NoteAssets,
    metadata: NoteMetadata,
    recipient: NoteRecipient,
) -> Note;

/// The note script that runs `program`: its code forest and its entrypoint.
pub uninterp spec fn script_of(program: Program) -> NoteScript;

/// Whether `NoteTag::validate` accepts `tag` for a note of type `note_type`.
pub uninterp spec fn tag_allows(tag: NoteTag, note_type: NoteType) -> bool;

/// The 32 bits of a tag, as `NoteTag::as_u32` gives them.
pub uninterp spec fn tag_bits(tag: NoteTag) -> u32;

/// The number of assets, as `NoteAssets::num_assets` gives it.
pub uninterp spec fn assets_count(assets: NoteAssets) -> nat;

/// Whether a hint is `NoteExecutionHint::Always`.
pub uninterp spec fn hint_is_always(hint: NoteExecutionHint) -> bool;

/// `NoteScript::from_parts` on the code forest and the entrypoint of
/// `program`. The entrypoint of a program lies in its forest, so the call
/// does not panic.
#[verifier::external_body]
pub(crate) fn note_script(program: &Program) -> (script: NoteScript)
    ensures
        script == script_of(*program),
{
    NoteScript::from_parts(program.mast_forest().clone(), program.entrypoint())
}

/// `NoteInputs::new`: fails on more than 128 values and on nothing else, and
/// keeps the values in their order.
#[verifier::external_body]
pub(crate) fn note_inputs(values: Vec<Felt>) -> (made: Result<NoteInputs, NoteError>)
    ensures
        made is Ok <==> values@.len() <= 128,
        made is Ok ==> made->Ok_0 == inputs_of(values@),
        made is Ok ==> inputs_view(made->Ok_0) == values@,
{
    NoteInputs::new(values)
}

/// `NoteRecipient::new`.
#[verifier::external_body]
pub(crate) fn note_recipient(serial_num: Word, script: NoteScript, inputs: NoteInputs) -> (made:
    NoteRecipient)
    ensures
        made == recipient_of(serial_num, script, inputs),
        recipient_view(made) == (RecipientView { serial_num, script, inputs: inputs_view(inputs) }),
{
    NoteRecipient::new(serial_num, script, inputs)
}

/// `NoteMetadata::new`: fails where the tag does not go with the note type,
/// which no tag does with a public note, and keeps what it is given.
#[verifier::external_body]
pub(crate) fn note_metadata(
    sender: AccountId,
    note_type: NoteType,
    tag: NoteTag,
    execution_hint: NoteExecutionHint,
    aux: Felt,
) -> (made: Result<NoteMetadata, NoteError>)
    ensures
        made is Ok <==> tag_allows(tag, note_type),
        note_type == NoteType::Public ==> made is Ok,
        made is Ok ==> made->Ok_0 == metadata_of(sender, note_type, tag, execution_hint, aux),
        made is Ok ==> metadata_view(made->Ok_0) == (MetadataView {
            sender,
            note_type,
            tag,
            execution_hint,
            aux,
        }),
{
    let ledger_type = match note_type {
        NoteType::Private => miden_objects::note::NoteType::Private,
        NoteType::Encrypted => miden_objects::note::NoteType::Encrypted,
        NoteType::Public => miden_objects::note::NoteType::Public,
    };
    NoteMetadata::new(sender, ledger_type, tag, execution_hint, aux)
}

/// `Note::new`.
#[verifier::external_body]
pub(crate) fn new_note(
    assets: NoteAssets,
    metadata: NoteMetadata,
    recipient: NoteRecipient,
) -> (made: Note)
    ensures
        made == note_from(assets, metadata, recipient),
        note_view(made) == (NoteView {
            assets,
            metadata: metadata_view(metadata),
            recipient: recipient_view(recipient),
        }),
{
    Note::new(assets, metadata, recipient)
}

/// `Note::clone`: the copy holds what the note holds.
#[verifier::external_body]
pub(crate) fn clone_note(note: &Note) -> (copy: Note)
    ensures
        copy == *note,
{
    note.clone()
}

/// `NoteTag::for_local_use_case`: fails where `use_case_id` does not fit in
/// 14 bits. The tag has its two highest bits set, then the use case, then the
/// payload.
#[verifier::external_body]
pub(crate) fn local_use_case_tag(use_case_id: u16, payload: u16) -> (made: Result<
    NoteTag,
    NoteError,
>)
    ensures
        made is Ok <==> use_case_id < 0x4000,
        made is Ok ==> tag_bits(made->Ok_0) == 0xc000_0000 + use_case_id * 0x1_0000 + payload,
{
    NoteTag::for_local_use_case(use_case_id, payload)
}

/// `NoteExecutionHint::always`.
#[verifier::external_body]
pub(crate) fn always_hint() -> (hint: NoteExecutionHint)
    ensures
        hint_is_always(hint),
{
    NoteExecutionHint::always()
}

/// `NoteAssets::default`: no assets.
#[verifier::external_body]
pub(crate) fn no_assets() -> (assets: NoteAssets)
    ensures
        assets_count(assets) == 0,
{
    NoteAssets::default()
}

} // verus!
