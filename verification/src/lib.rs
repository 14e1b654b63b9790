//! Account and note composition for a note-based ledger, with the
//! publish-then-consume transaction protocol as an explicit state machine.
//!
//! - [`package`] holds compiled packages as they come in, decoded, and the
//!   command line that compiles them.
//! - [`layout`] holds storage slots against the layout that a component
//!   description declares.
//! - [`component`] assembles an account component from a package.
//! - [`account`] builds accounts: authentication first, then the standard
//!   wallet, then the account's own component.
//! - [`note`] builds notes around a script and a fresh serial number.
//! - [`session`] keeps the books of one client session.
//! - [`orchestrator`] sequences the publication and the consumption of a
//!   note.
//!
//! The library performs no input or output, and decodes no bytes. Its owner
//! reads and decodes the package files, talks to the ledger and to the
//! stores, and reports each outcome.
//!
//! The ledger's own objects (packages, components, accounts, notes) are
//! produced by the ledger crates. Every call into them goes through
//! [`ledger`], whose contracts are assumed, not proved; everything else is
//! proved against those contracts.

pub mod account;
pub mod component;
pub mod error;
pub mod layout;
pub mod ledger;
pub mod note;
pub mod orchestrator;
pub mod package;
pub mod session;
pub mod types;
