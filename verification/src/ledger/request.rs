use miden_client::transaction::{
    OutputNote, TransactionRequest, TransactionRequestBuilder, TransactionRequestError,
};
use miden_objects::note::Note;
use vstd::prelude::*;

verus! {

/// `miden_client::transaction::TransactionRequest`.
#[verifier::external_type_specification]
#[verifier::external_body]
pub struct ExTransactionRequest(TransactionRequest);

/// `miden_client::transaction::TransactionRequestError`.
#[verifier::external_type_specification]
#[verifier::external_body]
pub struct ExTransactionRequestError(TransactionRequestError);

/// What this library reads of a transaction request.
pub struct RequestView {
    /// The notes that the transaction creates, as
    /// `expected_output_own_notes` gives them.
    pub own_output_notes: Seq<Note>,
    /// The notes that the transaction consumes without a proof of inclusion,
    /// as `unauthenticated_input_notes` gives them.
    pub unauthenticated_input_notes: Seq<Note>,
}

/// The notes of a transaction request.
pub uninterp spec fn request_view(request: TransactionRequest) -> RequestView;

/// `TransactionRequestBuilder::new`, `own_output_notes` with the one note
/// in full, `build`. None of the builder's failures can occur: there is no
/// custom script, no input note, and the note is given in full.
#[verifier::external_body]
pub(crate) fn publish_request(note: Note) -> (made: Result<
    TransactionRequest,
    TransactionRequestError,
>)
    ensures
        made is Ok,
        request_view(made->Ok_0) == (RequestView {
            own_output_notes: seq![note],
            unauthenticated_input_notes: Seq::empty(),
        }),
{
    TransactionRequestBuilder::new().own_output_notes(vec![OutputNote::Full(note)]).build()
}

/// `TransactionRequestBuilder::new`, `unauthenticated_input_notes` with the
/// one note and no argument, `build`. None of the builder's failures can
/// occur: there is no custom script, and a single input note is not repeated.
#[verifier::external_body]
pub(crate) fn consume_request(note: Note) -> (made: Result<
    TransactionRequest,
    TransactionRequestError,
>)
    ensures
        made is Ok,
        request_view(made->Ok_0) == (RequestView {
            own_output_notes: Seq::empty(),
            unauthenticated_input_notes: seq![note],
        }),
{
    TransactionRequestBuilder::new().unauthenticated_input_notes([(note, None)]).build()
}

} // verus!
