use vstd::prelude::*;

verus! {

/// The kinds of account that the ledger knows.
#[derive(Clone, Copy, Debug, PartialEq, Eq, Structural)]
pub enum AccountType {
    FungibleFaucet,
    NonFungibleFaucet,
    RegularAccountImmutableCode,
    RegularAccountUpdatableCode,
}

/// Where the state of an account is kept.
#[derive(Clone, Copy, Debug, PartialEq, Eq, Structural)]
pub enum AccountStorageMode {
    Public,
    Network,
    Private,
}

/// How much of a note the ledger gets to see.
#[derive(Clone, Copy, Debug, PartialEq, Eq, Structural)]
pub enum NoteType {
    Private,
    Encrypted,
    Public,
}

/// The shape of one storage slot: a single word, or a map from words to words.
#[derive(Clone, Copy, Debug, PartialEq, Eq, Structural)]
pub enum SlotKind {
    Word,
    Mapping,
}

/// One entry of the storage layout that a component description declares.
#[derive(Clone, Copy, Debug, PartialEq, Eq, Structural)]
pub enum LayoutEntry {
    /// A word at slot `slot`.
    Word { slot: u8 },
    /// A map at slot `slot`.
    Mapping { slot: u8 },
    /// Words at the slots from `start` up to, not including, `end`.
    MultiWord { start: u8, end: u8 },
}

} // verus!
