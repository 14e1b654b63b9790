//! The bookkeeping of one client session: whether its view of the ledger is
//! current, which accounts it has registered, and which keys it has stored.
//!
//! The session performs no input or output. Its owner reports what the
//! ledger endpoint and the stores answered, and the session says what that
//! comes to.

use miden_objects::account::AccountId;
use miden_objects::crypto::dsa::rpo_falcon512::PublicKey;
use vstd::prelude::*;

use crate::account::NewAccount;
use crate::error::ComposeError;
use crate::ledger::account::{account_id, account_view};
use crate::ledger::random::{public_key, public_key_of};

verus! {

/// Time allowed for one call to the ledger endpoint, in milliseconds.
pub const RPC_TIMEOUT_MS: u64 = 10_000;

/// How a synchronization with the ledger ended.
#[derive(Clone, Copy, Debug, PartialEq, Eq, Structural)]
pub enum SyncOutcome {
    /// The local view has reached the ledger's tip.
    Completed,
    /// The ledger endpoint did not answer in time.
    Unreachable,
    /// The endpoint answered, but the local view could not be updated.
    Failed,
}

/// What remains to be done for an account whose registration succeeded.
#[derive(Clone, Copy, Debug, PartialEq, Eq, Structural)]
pub enum RegistrationStep {
    /// The account's secret key has to be stored.
    StoreKey,
    /// Nothing: the account needs no key.
    Finished,
}

/// An account that is registered while its key is not stored yet.
pub struct PendingKey {
    pub account: AccountId,
    pub key: PublicKey,
}

/// The state of a session.
pub struct SessionView {
    /// Whether the local view was synchronized and no account was built since.
    pub synced: bool,
    /// The registered accounts, oldest first.
    pub accounts: Seq<AccountId>,
    /// The public keys of the stored secret keys, oldest first.
    pub keys: Seq<PublicKey>,
    /// The registered accounts whose key could not be stored: they exist
    /// without usable authentication.
    pub unauthenticated: Seq<AccountId>,
    /// The account whose key is to be stored next.
    pub pending: Option<PendingKey>,
}

impl SessionView {
    /// The books agree with each other: every account that lacks its key or
    /// waits for it is a registered account, and no account is counted for
    /// more than one of a stored key, a lacking key and a pending key.
    pub open spec fn consistent(self) -> bool {
        &&& forall|i: int|
            0 <= i < self.unauthenticated.len() ==> self.accounts.contains(
                #[trigger] self.unauthenticated[i],
            )
        &&& self.pending is Some ==> self.accounts.contains(self.pending->Some_0.account)
        &&& self.keys.len() + self.unauthenticated.len() + (if self.pending is Some {
            1nat
        } else {
            0nat
        }) <= self.accounts.len()
    }
}

/// The books after the local store was asked to take a new account: left as
/// they were where it did not; else with the account registered, and, where
/// the account comes with a key, with that key pending and an account that
/// was still waiting for its key listed as lacking authentication.
pub open spec fn registered(
    before: SessionView,
    new_account: NewAccount,
    stored: bool,
) -> SessionView {
    let id = account_view(new_account.account).id;
    if !stored {
        before
    } else {
        match new_account.secret_key {
            None => SessionView { accounts: before.accounts.push(id), ..before },
            Some(secret) => SessionView {
                accounts: before.accounts.push(id),
                unauthenticated: match before.pending {
                    Some(waiting) => before.unauthenticated.push(waiting.account),
                    None => before.unauthenticated,
                },
                pending: Some(PendingKey { account: id, key: public_key_of(secret) }),
                ..before
            },
        }
    }
}

/// One client session. Sessions share nothing: each owns its registries.
/// A new session's books are consistent, and every operation keeps them so.
pub struct Session {
    synced: bool,
    accounts: Vec<AccountId>,
    keys: Vec<PublicKey>,
    unauthenticated: Vec<AccountId>,
    pending: Option<PendingKey>,
}

impl View for Session {
    type V = SessionView;

    closed spec fn view(&self) -> SessionView {
        SessionView {
            synced: self.synced,
            accounts: self.accounts@,
            keys: self.keys@,
            unauthenticated: self.unauthenticated@,
            pending: self.pending,
        }
    }
}

impl Session {
    /// A session that has registered nothing and has not synchronized yet.
    pub fn new() -> (session: Session)
        ensures
            session@ == (SessionView {
                synced: false,
                accounts: Seq::empty(),
                keys: Seq::empty(),
                unauthenticated: Seq::empty(),
                pending: None,
            }),
            session@.consistent(),
    {
        Session {
            synced: false,
            accounts: Vec::new(),
            keys: Vec::new(),
            unauthenticated: Vec::new(),
            pending: None,
        }
    }

    /// Whether the local view was synchronized and no account was built since.
    pub fn is_synced(&self) -> (synced: bool)
        ensures
            synced == self@.synced,
    {
        self.synced
    }

    /// The registered accounts, oldest first.
    pub fn accounts(&self) -> (accounts: &Vec<AccountId>)
        ensures
            accounts@ == self@.accounts,
    {
        &self.accounts
    }

    /// The public keys of the stored secret keys, oldest first.
    pub fn keys(&self) -> (keys: &Vec<PublicKey>)
        ensures
            keys@ == self@.keys,
    {
        &self.keys
    }

    /// The registered accounts whose key could not be stored.
    pub fn unauthenticated(&self) -> (accounts: &Vec<AccountId>)
        ensures
            accounts@ == self@.unauthenticated,
    {
        &self.unauthenticated
    }

    /// Whether a registered account still waits for its key to be stored.
    pub fn has_pending_key(&self) -> (pending: bool)
        ensures
            pending == self@.pending is Some,
    {
        self.pending.is_some()
    }

    /// Records how a synchronization with the ledger ended. Only a completed
    /// one makes the local view current; the registries stay as they are.
    pub fn synchronized(&mut self, outcome: SyncOutcome) -> (result: Result<(), ComposeError>)
        ensures
            old(self)@.consistent() ==> final(self)@.consistent(),
            final(self)@ == (SessionView {
                synced: outcome == SyncOutcome::Completed,
                ..old(self)@
            }),
            result == match outcome {
                SyncOutcome::Completed => Ok::<(), ComposeError>(()),
                SyncOutcome::Unreachable => Err(ComposeError::RpcFailure),
                SyncOutcome::Failed => Err(ComposeError::SyncFailure),
            },
    {
        match outcome {
            SyncOutcome::Completed => {
                self.synced = true;
                Ok(())
            },
            SyncOutcome::Unreachable => {
                self.synced = false;
                Err(ComposeError::RpcFailure)
            },
            SyncOutcome::Failed => {
                self.synced = false;
                Err(ComposeError::SyncFailure)
            },
        }
    }

    /// Uses up the synchronization that an account is about to be built on.
    /// Fails where the local view is not current; the registries stay as they
    /// are either way.
    pub fn begin_build(&mut self) -> (result: Result<(), ComposeError>)
        ensures
            old(self)@.consistent() ==> final(self)@.consistent(),
            final(self)@ == (SessionView { synced: false, ..old(self)@ }),
            result == if old(self)@.synced {
                Ok::<(), ComposeError>(())
            } else {
                Err(ComposeError::SyncFailure)
            },
    {
        if self.synced {
            self.synced = false;
            Ok(())
        } else {
            Err(ComposeError::SyncFailure)
        }
    }

    /// Records whether the local store took a newly built account.
    ///
    /// A stored account joins the registry; where it comes with a secret key,
    /// that key is to be stored next, and an account that was still waiting
    /// for its key is listed as lacking authentication. An account that was
    /// not stored leaves the session as it was.
    pub fn account_registered(&mut self, new_account: &NewAccount, stored: bool) -> (result: Result<
        RegistrationStep,
        ComposeError,
    >)
        ensures
            final(self)@ == registered(old(self)@, *new_account, stored),
            old(self)@.consistent() ==> final(self)@.consistent(),
            result == if !stored {
                Err::<RegistrationStep, ComposeError>(ComposeError::AccountRegistrationFailure)
            } else if new_account.secret_key is Some {
                Ok(RegistrationStep::StoreKey)
            } else {
                Ok(RegistrationStep::Finished)
            },
    {
        if !stored {
            return Err(ComposeError::AccountRegistrationFailure);
        }
        let ghost before = self@;
        let id = account_id(&new_account.account);
        self.accounts.push(id);
        proof {
            assert(self.accounts@.last() == id);
            assert forall|other: AccountId|
                before.accounts.contains(other) implies self.accounts@.contains(other) by {
                let i = choose|i: int|
                    0 <= i < before.accounts.len() && before.accounts[i] == other;
                assert(self.accounts@[i] == other);
            }
        }
        match &new_account.secret_key {
            Some(secret) => {
                match self.pending.take() {
                    Some(waiting) => {
                        self.unauthenticated.push(waiting.account);
                    },
                    None => {},
                }
                self.pending = Some(PendingKey { account: id, key: public_key(secret) });
                Ok(RegistrationStep::StoreKey)
            },
            None => Ok(RegistrationStep::Finished),
        }
    }

    /// Records whether the key store took the secret key of the account that
    /// waits for it.
    ///
    /// A stored key joins the key registry. Where the key was not stored, the
    /// account stays registered and is listed as lacking authentication:
    /// nothing is rolled back. Without a pending key nothing changes.
    pub fn key_stored(&mut self, stored: bool) -> (result: Result<(), ComposeError>)
        ensures
            old(self)@.consistent() ==> final(self)@.consistent(),
            final(self)@ == match old(self)@.pending {
                None => old(self)@,
                Some(pending) => if stored {
                    SessionView {
                        keys: old(self)@.keys.push(pending.key),
                        pending: None,
                        ..old(self)@
                    }
                } else {
                    SessionView {
                        unauthenticated: old(self)@.unauthenticated.push(pending.account),
                        pending: None,
                        ..old(self)@
                    }
                },
            },
            result == if stored && old(self)@.pending is Some {
                Ok::<(), ComposeError>(())
            } else {
                Err(ComposeError::KeyStoreFailure)
            },
    {
        match self.pending.take() {
            None => Err(ComposeError::KeyStoreFailure),
            Some(pending) => {
                if stored {
                    self.keys.push(pending.key);
                    Ok(())
                } else {
                    self.unauthenticated.push(pending.account);
                    Err(ComposeError::KeyStoreFailure)
                }
            },
        }
    }
}

} // verus!
