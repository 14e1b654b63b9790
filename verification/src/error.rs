use vstd::prelude::*;

verus! {

/// Why a note could not be consumed.
#[derive(Clone, Copy, Debug, PartialEq, Eq, Structural)]
pub enum ConsumptionFault {
    /// The note has not been observed as included: its publication has not
    /// been submitted and synchronized.
    NoteNotFound,
    /// The ledger reported the note as already spent.
    AlreadySpent,
}

/// Every failure that composing accounts and notes, or driving their
/// transactions, can report.
#[derive(Clone, Copy, Debug, PartialEq, Eq, Structural)]
pub enum ComposeError {
    /// The package holds a program where a library is needed, or a library
    /// where a program is needed.
    WrongArtifact,
    /// The package carries no component description.
    MissingComponentMetadata,
    /// The package came without a declared layout: its component description
    /// does not decode.
    InvalidComponentMetadata,
    /// The storage slots disagree with the layout that the component
    /// description declares.
    StorageLayoutMismatch,
    /// The components do not make an account of the requested type.
    AccountBuildFailure,
    /// The local store did not take the account.
    AccountRegistrationFailure,
    /// The secret key could not be stored.
    KeyStoreFailure,
    /// The ledger endpoint could not be reached in time.
    RpcFailure,
    /// The local view of the ledger could not be brought up to date.
    SyncFailure,
    /// A note was given more inputs than a note may carry.
    TooManyInputs,
    /// The note type and routing tag do not go together.
    InvalidNoteMetadata,
    /// The transaction request is malformed.
    TransactionBuildFailure,
    /// The ledger rejected the transaction.
    SubmissionFailure,
    /// The note cannot be consumed.
    ConsumptionFailure(ConsumptionFault),
}

} // verus!
