//! The boundary to the ledger crates: their types, what values of those
//! types hold, and one function for each of their functions that the
//! library calls. Nothing stated here is proved.

pub mod account;
pub mod field;
pub mod note;
pub mod package;
pub mod random;
pub mod request;
