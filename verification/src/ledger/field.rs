use miden_core::{Felt, FieldElement, Word};
use vstd::prelude::*;

verus! {

/// `miden_core::Felt`: an element of the ledger's base field.
#[verifier::external_type_specification]
#[verifier::external_body]
pub struct ExFelt(Felt);

/// `miden_crypto::Word`: four field elements.
#[verifier::external_type_specification]
#[verifier::external_body]
pub struct ExWord(Word);

/// The integer that a field element stands for, as `Felt::as_int` gives it.
pub uninterp spec fn felt_value(felt: Felt) -> u64;

/// `Felt::ZERO`.
#[verifier::external_body]
pub(crate) fn zero_felt() -> (felt: Felt)
    ensures
        felt_value(felt) == 0,
{
    Felt::ZERO
}

} // verus!
