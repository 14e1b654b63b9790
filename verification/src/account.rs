//! Building accounts from components: the authentication component first,
//! then the standard wallet where it is asked for, then the account's own
//! components.

use miden_client::account::component::{BasicWallet, NoAuth};
use miden_client::ClientRng;
use miden_core::Word;
use miden_mast_package::Package;
use miden_objects::account::{Account, AccountComponent, StorageSlot};
use miden_objects::crypto::dsa::rpo_falcon512::SecretKey;
use miden_objects::AccountError;
use std::sync::Arc;
use vstd::pervasive::unreached;
use vstd::prelude::*;

use crate::component::{
    account_component_from_package, assemble_component, assembly_of, resolved_types,
    AccountCreationConfig,
};
use crate::error::ComposeError;
use crate::ledger::account::{
    account_view, basic_wallet_component, build_account, build_order, builder_account_type,
    builder_storage_mode, builder_view, builder_with_auth, builder_with_component, component_view,
    components_build, falcon_auth_component, falcon_component, key_slot, merged_code,
    merged_slots, new_builder, new_component, no_auth_component, no_auth_component_of,
    reserved_slots, seeded_id, wallet_component, with_supported_types, ComponentView,
};
use crate::ledger::package::{package_library, package_view, Artifact};
use crate::ledger::random::{draw_seed, generate_secret_key, public_key, public_key_of};
use crate::session::{Session, SessionView};
use crate::package::ComponentPackage;
use crate::types::{AccountStorageMode, AccountType};

verus! {

/// A newly built account, with what is needed to register it.
pub struct NewAccount {
    /// The account.
    pub account: Account,
    /// The seed that the account's identifier was derived with.
    pub seed: Word,
    /// The secret key that signs for the account, where its authentication
    /// needs one.
    pub secret_key: Option<SecretKey>,
}

/// Whether `component` may be attached to an account of type `account_type`.
pub open spec fn supports(component: AccountComponent, account_type: AccountType) -> bool {
    component_view(component).supported_types.contains(account_type)
}

/// Whether every one of `components` may be attached to an account of type
/// `account_type`.
pub open spec fn all_support(components: Seq<AccountComponent>, account_type: AccountType) -> bool {
    forall|i: int| 0 <= i < components.len() ==> supports(#[trigger] components[i], account_type)
}

/// `result` is what building an account of the given type and storage mode
/// from the components in `order` gives. The account is built exactly where
/// the ledger's builder makes one of these components, which it does only
/// where every component supports the account's type and the slots are at
/// most 255; anything else is a build failure. The account has the type and
/// mode asked for and the code merged from the components; it holds the
/// components' storage slots in order, behind the slot that the ledger
/// reserves in a faucet; and its identifier derives from the seed that comes
/// with it.
pub open spec fn built(
    order: Seq<AccountComponent>,
    account_type: AccountType,
    storage_mode: AccountStorageMode,
    result: Result<(Account, Word), ComposeError>,
) -> bool {
    &&& result is Ok <==> components_build(order, account_type)
    &&& match result {
        Err(error) => error == ComposeError::AccountBuildFailure,
        Ok((account, seed)) => {
            let made = account_view(account);
            &&& all_support(order, account_type)
            &&& made.id == seeded_id(seed, made.code_commitment, made.slots)
            &&& made.account_type == account_type
            &&& made.storage_mode == storage_mode
            &&& made.code_commitment == merged_code(order, account_type)
            &&& made.slots.len() == reserved_slots(account_type) + merged_slots(order).len()
            &&& made.slots.len() <= 255
            &&& made.slots.skip(reserved_slots(account_type) as int) == merged_slots(order)
        },
    }
}

/// What is reported for an outcome of the ledger's account builder: the
/// account with its seed, or a build failure.
pub fn conclude_build(outcome: Result<(Account, Word), AccountError>) -> (result: Result<
    (Account, Word),
    ComposeError,
>)
    ensures
        match outcome {
            Ok(pair) => result == Ok::<(Account, Word), ComposeError>(pair),
            Err(_) => result == Err::<(Account, Word), ComposeError>(
                ComposeError::AccountBuildFailure,
            ),
        },
{
    match outcome {
        Ok(pair) => Ok(pair),
        Err(_) => Err(ComposeError::AccountBuildFailure),
    }
}

/// Builds an account of the given type and storage mode, whose identifier
/// derives from `init_seed`, out of the authentication component `auth` and
/// then `components` in their order.
///
/// The account is built exactly where the ledger's builder makes one of
/// these components; it makes none wherever a component does not support the
/// account type.
pub fn compose_account(
    init_seed: [u8; 32],
    account_type: AccountType,
    storage_mode: AccountStorageMode,
    auth: AccountComponent,
    components: Vec<AccountComponent>,
) -> (result: Result<(Account, Word), ComposeError>)
    ensures
        built(seq![auth] + components@, account_type, storage_mode, result),
        !all_support(seq![auth] + components@, account_type) ==> result is Err,
{
    let ghost order = seq![auth] + components@;
    let mut builder = new_builder(init_seed);
    builder = builder_account_type(builder, account_type);
    builder = builder_storage_mode(builder, storage_mode);
    builder = builder_with_auth(builder, auth);
    let mut rest = components;
    while rest.len() > 0
        invariant
            builder_view(builder).account_type == account_type,
            builder_view(builder).storage_mode == storage_mode,
            builder_view(builder).auth == Some(auth),
            builder_view(builder).components + rest@ == components@,
        decreases rest.len(),
    {
        let ghost before = builder_view(builder).components;
        let ghost left = rest@;
        let component = rest.remove(0);
        builder = builder_with_component(builder, component);
        assert(builder_view(builder).components + rest@ == before + left);
    }
    assert(builder_view(builder).components == components@);
    assert(build_order(builder_view(builder)) == order);
    let outcome = build_account(builder);
    proof {
        if !all_support(order, account_type) {
            let i = choose|i: int|
                0 <= i < order.len() && !supports(#[trigger] order[i], account_type);
            assert(outcome is Err);
        }
    }
    conclude_build(outcome)
}

/// The storage of one component makes up the merged storage of that
/// component alone, and a further component adds its slots at the end.
pub proof fn lemma_merged_slots_push(components: Seq<AccountComponent>, last: AccountComponent)
    ensures
        merged_slots(seq![last]) == component_view(last).slots,
        merged_slots(components.push(last)) == merged_slots(components) + component_view(
            last,
        ).slots,
{
    assert(components.push(last).drop_last() == components);
    assert(seq![last].drop_last() == Seq::<AccountComponent>::empty());
    assert(merged_slots(Seq::<AccountComponent>::empty()) == Seq::<StorageSlot>::empty());
    assert(merged_slots(seq![last]) == Seq::<StorageSlot>::empty() + component_view(last).slots);
}

/// `account` has the given type and storage mode, and its storage is the
/// slot that the ledger reserves in a faucet, then the slots `auth_slots` of
/// the authentication component, then `slots`.
pub open spec fn account_holds(
    account: Account,
    account_type: AccountType,
    storage_mode: AccountStorageMode,
    auth_slots: Seq<StorageSlot>,
    slots: Seq<StorageSlot>,
) -> bool {
    let made = account_view(account);
    &&& made.account_type == account_type
    &&& made.storage_mode == storage_mode
    &&& made.slots.len() == reserved_slots(account_type) + auth_slots.len() + slots.len()
    &&& made.slots.skip(reserved_slots(account_type) as int) == auth_slots + slots
}

/// How a new account is to authenticate.
pub enum AuthScheme {
    /// By signatures of a key pair that is made for the account.
    FreshKey,
    /// Not at all.
    Nothing,
    /// By a component of the caller's own.
    Custom(AccountComponent),
}

/// What a new account is to be made of.
pub struct AccountPlan {
    /// How the account authenticates.
    pub scheme: AuthScheme,
    /// Whether the account holds the standard wallet.
    pub with_wallet: bool,
    /// The account's own component, if it has one.
    pub own: Option<AccountComponent>,
    /// The type of the account.
    pub account_type: AccountType,
    /// Where the account's state is kept.
    pub storage_mode: AccountStorageMode,
}

/// `auth` is the authentication component that `scheme` asks for, and
/// `secret_key` the key that was made for it, if one was: the component that
/// checks signatures against the public key of that key, the component that
/// checks nothing, or the caller's own component.
pub open spec fn authenticates(
    scheme: AuthScheme,
    secret_key: Option<SecretKey>,
    auth: AccountComponent,
) -> bool {
    match scheme {
        AuthScheme::FreshKey => secret_key is Some && auth == falcon_component(
            public_key_of(secret_key->Some_0),
        ),
        AuthScheme::Nothing => secret_key is None && exists|no_auth: NoAuth|
            auth == no_auth_component_of(no_auth),
        AuthScheme::Custom(component) => secret_key is None && auth == component,
    }
}

/// `part` is the standard wallet component where `with_wallet` says so, and
/// nothing else.
pub open spec fn is_wallet_part(part: Seq<AccountComponent>, with_wallet: bool) -> bool {
    if with_wallet {
        part.len() == 1 && exists|wallet: BasicWallet| part[0] == wallet_component(wallet)
    } else {
        part.len() == 0
    }
}

/// The account's own component, if it has one, as a sequence.
pub open spec fn own_part(own: Option<AccountComponent>) -> Seq<AccountComponent> {
    match own {
        Some(component) => seq![component],
        None => Seq::empty(),
    }
}

/// `order` is the merging order of the components that `plan` asks for,
/// where `secret_key` is the key that was made: the authentication
/// component, then the standard wallet where the plan holds it, then the
/// account's own component.
pub open spec fn plan_order(
    plan: AccountPlan,
    secret_key: Option<SecretKey>,
    order: Seq<AccountComponent>,
) -> bool {
    exists|auth: AccountComponent, wallet: Seq<AccountComponent>|
        {
            &&& #[trigger] authenticates(plan.scheme, secret_key, auth)
            &&& #[trigger] is_wallet_part(wallet, plan.with_wallet)
            &&& order == seq![auth] + wallet + own_part(plan.own)
        }
}

/// The storage slots of the authentication component: the slot that holds
/// the public key of the account's key, no slot where nothing is checked,
/// and the slots of a component of the caller's own.
pub open spec fn auth_slots_of(scheme: AuthScheme, secret_key: Option<SecretKey>) -> Seq<
    StorageSlot,
> {
    match scheme {
        AuthScheme::FreshKey => seq![key_slot(public_key_of(secret_key->Some_0))],
        AuthScheme::Nothing => Seq::empty(),
        AuthScheme::Custom(component) => component_view(component).slots,
    }
}

/// The storage slots of an account's own component, if it has one.
pub open spec fn own_slots(own: Option<AccountComponent>) -> Seq<StorageSlot> {
    match own {
        Some(component) => component_view(component).slots,
        None => Seq::empty(),
    }
}

/// `result` is what building the account that `plan` asks for gives, once
/// the key is `secret_key` and the components in merging order are `order`.
/// The account is built exactly where the ledger's builder makes one of
/// these components; anything else is a build failure. The account comes
/// with that key, is built of those components, and its storage is that of
/// the authentication component and then that of its own component.
pub open spec fn made_from(
    plan: AccountPlan,
    secret_key: Option<SecretKey>,
    order: Seq<AccountComponent>,
    result: Result<NewAccount, ComposeError>,
) -> bool {
    &&& result is Ok <==> components_build(order, plan.account_type)
    &&& match result {
        Err(error) => error == ComposeError::AccountBuildFailure,
        Ok(new_account) => {
            &&& new_account.secret_key == secret_key
            &&& built(
                order,
                plan.account_type,
                plan.storage_mode,
                Ok((new_account.account, new_account.seed)),
            )
            &&& account_holds(
                new_account.account,
                plan.account_type,
                plan.storage_mode,
                auth_slots_of(plan.scheme, secret_key),
                own_slots(plan.own),
            )
        },
    }
}

/// What [`create_account`] leaves behind. The synchronization is used up
/// and the registries are untouched. Without a current view nothing is
/// drawn and nothing is built. With one, a key is made exactly where the
/// account signs, and the result is what building the planned components
/// in their merging order gives.
pub open spec fn account_built(
    before: SessionView,
    after: SessionView,
    rng_before: ClientRng,
    rng_after: ClientRng,
    plan: AccountPlan,
    result: Result<NewAccount, ComposeError>,
) -> bool {
    &&& after == (SessionView { synced: false, ..before })
    &&& if before.synced {
        exists|secret_key: Option<SecretKey>, order: Seq<AccountComponent>|
            #[trigger] plan_order(plan, secret_key, order) && made_from(
                plan,
                secret_key,
                order,
                result,
            )
    } else {
        result == Err::<NewAccount, ComposeError>(ComposeError::SyncFailure) && rng_after
            == rng_before
    }
}

/// Builds the account that `plan` asks for, on the session's current view
/// of the ledger: its identifier derives from a seed drawn from `rng`; it
/// authenticates as the plan says, with a key pair drawn from `rng` where it
/// signs; and it holds the standard wallet, where the plan says so, and then
/// its own component, where it has one.
///
/// Nothing is registered: the account and its key are handed out for that.
pub fn create_account(session: &mut Session, rng: &mut ClientRng, plan: AccountPlan) -> (result:
    Result<NewAccount, ComposeError>)
    ensures
        account_built(old(session)@, final(session)@, *old(rng), *final(rng), plan, result),
{
    match session.begin_build() {
        Err(error) => {
            return Err(error);
        },
        Ok(()) => {},
    }
    let init_seed = draw_seed(rng);
    let ghost scheme = plan.scheme;
    let ghost planned_own = plan.own;
    let (auth, secret_key) = match plan.scheme {
        AuthScheme::FreshKey => {
            let secret = generate_secret_key(rng);
            (falcon_auth_component(public_key(&secret)), Some(secret))
        },
        AuthScheme::Nothing => (no_auth_component(), None),
        AuthScheme::Custom(component) => (component, None),
    };
    assert(authenticates(scheme, secret_key, auth));
    assert(component_view(auth).slots == auth_slots_of(scheme, secret_key));
    let mut components: Vec<AccountComponent> = Vec::new();
    if plan.with_wallet {
        components.push(basic_wallet_component());
    }
    let ghost wallet = components@;
    assert(is_wallet_part(wallet, plan.with_wallet));
    match plan.own {
        Some(component) => {
            components.push(component);
        },
        None => {},
    }
    let ghost rest = components@;
    let ghost order = seq![auth] + rest;
    proof {
        lemma_merged_slots_push(Seq::empty(), auth);
        if plan.with_wallet {
            lemma_merged_slots_push(seq![auth], wallet[0]);
            assert(seq![auth] + wallet == seq![auth].push(wallet[0]));
        } else {
            assert(seq![auth] + wallet == seq![auth]);
        }
        assert(merged_slots(seq![auth] + wallet) == component_view(auth).slots);
        if planned_own is Some {
            lemma_merged_slots_push(seq![auth] + wallet, planned_own->Some_0);
            assert(order == (seq![auth] + wallet).push(planned_own->Some_0));
        } else {
            assert(order == seq![auth] + wallet);
        }
        assert(order == seq![auth] + wallet + own_part(planned_own));
        assert(merged_slots(order) == auth_slots_of(scheme, secret_key) + own_slots(planned_own));
        assert(plan_order(plan, secret_key, order));
    }
    match compose_account(init_seed, plan.account_type, plan.storage_mode, auth, components) {
        Err(error) => {
            assert(made_from(plan, secret_key, order, Err(error)));
            Err(error)
        },
        Ok((account, seed)) => {
            let new_account = NewAccount { account, seed, secret_key };
            assert(made_from(plan, secret_key, order, Ok(new_account)));
            Ok(new_account)
        },
    }
}

/// How a new account is to authenticate, with a component of the caller's
/// own given by what it holds.
pub enum Authentication {
    /// By signatures of a key pair that is made for the account.
    FreshKey,
    /// Not at all.
    Nothing,
    /// By a component of the caller's own, which holds this.
    Custom(ComponentView),
}

/// `plan` asks for an account of this make: this authentication, the
/// standard wallet where `with_wallet` says so, an own component that holds
/// `own`, where there is one, and this type and storage mode.
pub open spec fn planned(
    plan: AccountPlan,
    authentication: Authentication,
    with_wallet: bool,
    own: Option<ComponentView>,
    account_type: AccountType,
    storage_mode: AccountStorageMode,
) -> bool {
    &&& match authentication {
        Authentication::FreshKey => plan.scheme is FreshKey,
        Authentication::Nothing => plan.scheme is Nothing,
        Authentication::Custom(held) => plan.scheme is Custom && component_view(
            plan.scheme->Custom_0,
        ) == held,
    }
    &&& plan.with_wallet == with_wallet
    &&& match own {
        Some(held) => plan.own is Some && component_view(plan.own->Some_0) == held,
        None => plan.own is None,
    }
    &&& plan.account_type == account_type
    &&& plan.storage_mode == storage_mode
}

/// `result` is a plan of this make.
pub open spec fn plan_made(
    result: Result<AccountPlan, ComposeError>,
    authentication: Authentication,
    with_wallet: bool,
    own: Option<ComponentView>,
    account_type: AccountType,
    storage_mode: AccountStorageMode,
) -> bool {
    result is Ok && planned(
        result->Ok_0,
        authentication,
        with_wallet,
        own,
        account_type,
        storage_mode,
    )
}

/// What [`create_account`] leaves behind for some plan of this make.
pub open spec fn account_made(
    before: SessionView,
    after: SessionView,
    rng_before: ClientRng,
    rng_after: ClientRng,
    authentication: Authentication,
    with_wallet: bool,
    own: Option<ComponentView>,
    account_type: AccountType,
    storage_mode: AccountStorageMode,
    result: Result<NewAccount, ComposeError>,
) -> bool {
    exists|plan: AccountPlan| #[trigger]
        planned(plan, authentication, with_wallet, own, account_type, storage_mode)
            && account_built(before, after, rng_before, rng_after, plan, result)
}

/// What planning an account around the component of `package` gives: the
/// failure of assembling the component, or a plan of an account that signs
/// with a fresh key pair and holds that component, behind the standard
/// wallet where `config` asks for it.
pub open spec fn component_account_planned(
    package: ComponentPackage,
    config: AccountCreationConfig,
    result: Result<AccountPlan, ComposeError>,
) -> bool {
    match assembly_of(
        package,
        config.storage_slots@,
        config.supported_types,
        AccountType::RegularAccountUpdatableCode,
    ) {
        Err(error) => result == Err::<AccountPlan, ComposeError>(error),
        Ok(component) => plan_made(
            result,
            Authentication::FreshKey,
            config.with_basic_wallet,
            Some(component),
            config.account_type,
            config.storage_mode,
        ),
    }
}

/// Plans an account that signs with a fresh key pair and holds the component
/// assembled from `package`, behind the standard wallet where `config` asks
/// for it. The component supports the account types that `config` names, or
/// updatable-code regular accounts alone where it names none.
pub fn plan_account_with_component(
    package: &ComponentPackage,
    config: AccountCreationConfig,
) -> (result: Result<AccountPlan, ComposeError>)
    ensures
        component_account_planned(*package, config, result),
{
    let component = match assemble_component(
        package,
        config.storage_slots,
        &config.supported_types,
        AccountType::RegularAccountUpdatableCode,
    ) {
        Err(error) => {
            return Err(error);
        },
        Ok(component) => component,
    };
    Ok(
        AccountPlan {
            scheme: AuthScheme::FreshKey,
            with_wallet: config.with_basic_wallet,
            own: Some(component),
            account_type: config.account_type,
            storage_mode: config.storage_mode,
        },
    )
}

/// `result` and the session `after` are what
/// [`create_account_with_component`] leaves behind: the failure of
/// assembling the component, with the session and the random source
/// untouched, or what [`create_account`] leaves behind for the plan.
pub open spec fn component_account_made(
    before: SessionView,
    after: SessionView,
    rng_before: ClientRng,
    rng_after: ClientRng,
    package: ComponentPackage,
    config: AccountCreationConfig,
    result: Result<NewAccount, ComposeError>,
) -> bool {
    match assembly_of(
        package,
        config.storage_slots@,
        config.supported_types,
        AccountType::RegularAccountUpdatableCode,
    ) {
        Err(error) => after == before && rng_after == rng_before && result == Err::<
            NewAccount,
            ComposeError,
        >(error),
        Ok(component) => account_made(
            before,
            after,
            rng_before,
            rng_after,
            Authentication::FreshKey,
            config.with_basic_wallet,
            Some(component),
            config.account_type,
            config.storage_mode,
            result,
        ),
    }
}

/// Builds an account that signs with a fresh key pair and holds the
/// component assembled from `package`, behind the standard wallet where
/// `config` asks for it.
///
/// The component is assembled first, and a failure there is reported as it
/// is, with the session and the random source untouched. The component
/// supports the account types that `config` names, or updatable-code regular
/// accounts alone where it names none: the build fails where they leave out
/// the account's type. Nothing is registered: the account and its key are
/// handed out for that.
pub fn create_account_with_component(
    session: &mut Session,
    rng: &mut ClientRng,
    package: &ComponentPackage,
    config: AccountCreationConfig,
) -> (result: Result<NewAccount, ComposeError>)
    ensures
        component_account_made(
            old(session)@,
            final(session)@,
            *old(rng),
            *final(rng),
            *package,
            config,
            result,
        ),
{
    match plan_account_with_component(package, config) {
        Err(error) => Err(error),
        Ok(plan) => create_account(session, rng, plan),
    }
}

/// Plans an account that signs with a fresh key pair and holds the standard
/// wallet alone. Of `config` only the account type and the storage mode are
/// read.
pub fn plan_basic_wallet_account(config: AccountCreationConfig) -> (plan: AccountPlan)
    ensures
        planned(
            plan,
            Authentication::FreshKey,
            true,
            None,
            config.account_type,
            config.storage_mode,
        ),
{
    AccountPlan {
        scheme: AuthScheme::FreshKey,
        with_wallet: true,
        own: None,
        account_type: config.account_type,
        storage_mode: config.storage_mode,
    }
}

/// `result` and the session `after` are what [`create_basic_wallet_account`]
/// leaves behind.
pub open spec fn wallet_account_made(
    before: SessionView,
    after: SessionView,
    rng_before: ClientRng,
    rng_after: ClientRng,
    config: AccountCreationConfig,
    result: Result<NewAccount, ComposeError>,
) -> bool {
    account_made(
        before,
        after,
        rng_before,
        rng_after,
        Authentication::FreshKey,
        true,
        None,
        config.account_type,
        config.storage_mode,
        result,
    )
}

/// Builds an account that signs with a fresh key pair and holds the
/// standard wallet alone. Of `config` only the account type and the storage
/// mode are read.
///
/// Nothing is registered: the account and its key are handed out for that.
pub fn create_basic_wallet_account(
    session: &mut Session,
    rng: &mut ClientRng,
    config: AccountCreationConfig,
) -> (result: Result<NewAccount, ComposeError>)
    ensures
        wallet_account_made(
            old(session)@,
            final(session)@,
            *old(rng),
            *final(rng),
            config,
            result,
        ),
{
    create_account(session, rng, plan_basic_wallet_account(config))
}

/// What the authentication component made of the library of a package
/// holds: that library, no storage, and the account types that the
/// account's own component supports as well.
pub open spec fn custom_auth_view(
    auth_component_package: Package,
    config: AccountCreationConfig,
) -> ComponentView {
    ComponentView {
        library: package_view(auth_component_package).artifact->Library_0,
        slots: Seq::empty(),
        supported_types: resolved_types(
            config.supported_types,
            AccountType::RegularAccountUpdatableCode,
        ),
    }
}

/// What planning an account with an authentication package gives: the
/// failure of assembling the component; else a failure where the
/// authentication package holds no library; else a plan of an account that
/// authenticates by that library and holds the component, behind the standard
/// wallet where `config` asks for it.
pub open spec fn custom_auth_account_planned(
    component_package: ComponentPackage,
    auth_component_package: Package,
    config: AccountCreationConfig,
    result: Result<AccountPlan, ComposeError>,
) -> bool {
    match assembly_of(
        component_package,
        config.storage_slots@,
        config.supported_types,
        AccountType::RegularAccountUpdatableCode,
    ) {
        Err(error) => result == Err::<AccountPlan, ComposeError>(error),
        Ok(component) => match package_view(auth_component_package).artifact {
            Artifact::Executable(_) => result == Err::<AccountPlan, ComposeError>(
                ComposeError::WrongArtifact,
            ),
            Artifact::Library(_) => plan_made(
                result,
                Authentication::Custom(custom_auth_view(auth_component_package, config)),
                config.with_basic_wallet,
                Some(component),
                config.account_type,
                config.storage_mode,
            ),
        },
    }
}

/// Plans an account whose authentication is the library of
/// `auth_component_package`, and which holds the component assembled from
/// `component_package`, behind the standard wallet where `config` asks for
/// it. Both components support the account types that `config` names, or
/// updatable-code regular accounts alone where it names none.
pub fn plan_account_with_component_and_auth_package(
    component_package: &ComponentPackage,
    auth_component_package: &Package,
    config: AccountCreationConfig,
) -> (result: Result<AccountPlan, ComposeError>)
    ensures
        custom_auth_account_planned(*component_package, *auth_component_package, config, result),
{
    let component = match assemble_component(
        component_package,
        config.storage_slots,
        &config.supported_types,
        AccountType::RegularAccountUpdatableCode,
    ) {
        Err(error) => {
            return Err(error);
        },
        Ok(component) => component,
    };
    let auth_library = match package_library(auth_component_package) {
        None => {
            return Err(ComposeError::WrongArtifact);
        },
        Some(library) => library,
    };
    let bare_auth = match new_component(auth_library, Vec::new()) {
        Ok(auth) => auth,
        Err(_) => unreached(),
    };
    let auth = match &config.supported_types {
        Some(types) => with_supported_types(bare_auth, types),
        None => {
            let types = vec![AccountType::RegularAccountUpdatableCode];
            assert(types@.to_set() =~= set![AccountType::RegularAccountUpdatableCode]) by {
                assert(types@[0] == AccountType::RegularAccountUpdatableCode);
            }
            with_supported_types(bare_auth, &types)
        },
    };
    assert(component_view(auth) == custom_auth_view(*auth_component_package, config));
    Ok(
        AccountPlan {
            scheme: AuthScheme::Custom(auth),
            with_wallet: config.with_basic_wallet,
            own: Some(component),
            account_type: config.account_type,
            storage_mode: config.storage_mode,
        },
    )
}

/// `result` and the session `after` are what
/// [`create_account_with_component_and_auth_package`] leaves behind: a
/// failure of planning, with the session and the random source untouched, or
/// what [`create_account`] leaves behind for the plan.
pub open spec fn custom_auth_account_made(
    before: SessionView,
    after: SessionView,
    rng_before: ClientRng,
    rng_after: ClientRng,
    component_package: ComponentPackage,
    auth_component_package: Package,
    config: AccountCreationConfig,
    result: Result<NewAccount, ComposeError>,
) -> bool {
    match assembly_of(
        component_package,
        config.storage_slots@,
        config.supported_types,
        AccountType::RegularAccountUpdatableCode,
    ) {
        Err(error) => after == before && rng_after == rng_before && result == Err::<
            NewAccount,
            ComposeError,
        >(error),
        Ok(component) => match package_view(auth_component_package).artifact {
            Artifact::Executable(_) => after == before && rng_after == rng_before && result
                == Err::<NewAccount, ComposeError>(ComposeError::WrongArtifact),
            Artifact::Library(_) => account_made(
                before,
                after,
                rng_before,
                rng_after,
                Authentication::Custom(custom_auth_view(auth_component_package, config)),
                config.with_basic_wallet,
                Some(component),
                config.account_type,
                config.storage_mode,
                result,
            ),
        },
    }
}

/// Builds an account whose authentication is the library of
/// `auth_component_package`, and which holds the component assembled from
/// `component_package`, behind the standard wallet where `config` asks for
/// it. No key is made.
///
/// The component is assembled first, and a failure there is reported as it
/// is; then the authentication package must hold a library. Until then the
/// session and the random source are untouched. Both components support the
/// account types that `config` names, or updatable-code regular accounts
/// alone where it names none: the build fails where they leave out the
/// account's type.
pub fn create_account_with_component_and_auth_package(
    session: &mut Session,
    rng: &mut ClientRng,
    component_package: &ComponentPackage,
    auth_component_package: Arc<Package>,
    config: AccountCreationConfig,
) -> (result: Result<NewAccount, ComposeError>)
    ensures
        custom_auth_account_made(
            old(session)@,
            final(session)@,
            *old(rng),
            *final(rng),
            *component_package,
            *auth_component_package,
            config,
            result,
        ),
{
    match plan_account_with_component_and_auth_package(
        component_package,
        &auth_component_package,
        config,
    ) {
        Err(error) => Err(error),
        Ok(plan) => create_account(session, rng, plan),
    }
}

/// What planning an account without authentication around the component of
/// `package` gives: the failure of assembling the component, or a plan of an
/// account that holds that component and nothing else.
pub open spec fn package_account_planned(
    package: ComponentPackage,
    config: AccountCreationConfig,
    result: Result<AccountPlan, ComposeError>,
) -> bool {
    match assembly_of(
        package,
        config.storage_slots@,
        config.supported_types,
        AccountType::RegularAccountImmutableCode,
    ) {
        Err(error) => result == Err::<AccountPlan, ComposeError>(error),
        Ok(component) => plan_made(
            result,
            Authentication::Nothing,
            false,
            Some(component),
            config.account_type,
            config.storage_mode,
        ),
    }
}

/// Plans an account without authentication that holds the component
/// assembled from `package` and nothing else: the standard wallet is never
/// attached, whatever `config` says of it. The component supports the
/// account types that `config` names, or immutable-code regular accounts
/// alone where it names none.
pub fn plan_account_from_package(
    package: &ComponentPackage,
    config: AccountCreationConfig,
) -> (result: Result<AccountPlan, ComposeError>)
    ensures
        package_account_planned(*package, config, result),
{
    let component = match account_component_from_package(package, &config) {
        Err(error) => {
            return Err(error);
        },
        Ok(component) => component,
    };
    Ok(
        AccountPlan {
            scheme: AuthScheme::Nothing,
            with_wallet: false,
            own: Some(component),
            account_type: config.account_type,
            storage_mode: config.storage_mode,
        },
    )
}

/// `result` and the session `after` are what [`create_account_from_package`]
/// leaves behind: the failure of assembling the component, with the session
/// and the random source untouched, or what [`create_account`] leaves behind
/// for the plan.
pub open spec fn package_account_made(
    before: SessionView,
    after: SessionView,
    rng_before: ClientRng,
    rng_after: ClientRng,
    package: ComponentPackage,
    config: AccountCreationConfig,
    result: Result<NewAccount, ComposeError>,
) -> bool {
    match assembly_of(
        package,
        config.storage_slots@,
        config.supported_types,
        AccountType::RegularAccountImmutableCode,
    ) {
        Err(error) => after == before && rng_after == rng_before && result == Err::<
            NewAccount,
            ComposeError,
        >(error),
        Ok(component) => account_made(
            before,
            after,
            rng_before,
            rng_after,
            Authentication::Nothing,
            false,
            Some(component),
            config.account_type,
            config.storage_mode,
            result,
        ),
    }
}

/// Builds an account without authentication that holds the component
/// assembled from `package` and nothing else: the standard wallet is never
/// attached, whatever `config` says of it. No key is made.
///
/// The component is assembled first, and a failure there is reported as it
/// is, with the session and the random source untouched. The component
/// supports the account types that `config` names, or immutable-code regular
/// accounts alone where it names none: the build fails where they leave out
/// the account's type.
pub fn create_account_from_package(
    session: &mut Session,
    rng: &mut ClientRng,
    package: &ComponentPackage,
    config: AccountCreationConfig,
) -> (result: Result<NewAccount, ComposeError>)
    ensures
        package_account_made(
            old(session)@,
            final(session)@,
            *old(rng),
            *final(rng),
            *package,
            config,
            result,
        ),
{
    match plan_account_from_package(package, config) {
        Err(error) => Err(error),
        Ok(plan) => create_account(session, rng, plan),
    }
}

/// No account holds a component of its own that does not support the
/// account's type: [`create_account`] then builds nothing, reports a build
/// failure where the local view is current, and leaves the registries of
/// accounts and keys as they were.
pub proof fn lemma_unsupported_type_builds_nothing(
    before: SessionView,
    after: SessionView,
    rng_before: ClientRng,
    rng_after: ClientRng,
    plan: AccountPlan,
    result: Result<NewAccount, ComposeError>,
)
    requires
        account_built(before, after, rng_before, rng_after, plan, result),
        plan.own is Some,
        !supports(plan.own->Some_0, plan.account_type),
    ensures
        result is Err,
        before.synced ==> result == Err::<NewAccount, ComposeError>(
            ComposeError::AccountBuildFailure,
        ),
        after.accounts == before.accounts,
        after.keys == before.keys,
        after.unauthenticated == before.unauthenticated,
{
    if before.synced {
        let (secret_key, order) = choose|
            secret_key: Option<SecretKey>,
            order: Seq<AccountComponent>,
        |
            #[trigger] plan_order(plan, secret_key, order) && made_from(
                plan,
                secret_key,
                order,
                result,
            );
        if result is Ok {
            let (auth, wallet) = choose|auth: AccountComponent, wallet: Seq<AccountComponent>|
                {
                    &&& #[trigger] authenticates(plan.scheme, secret_key, auth)
                    &&& #[trigger] is_wallet_part(wallet, plan.with_wallet)
                    &&& order == seq![auth] + wallet + own_part(plan.own)
                };
            assert(order[order.len() - 1] == plan.own->Some_0);
            assert(supports(order[order.len() - 1], plan.account_type));
        }
    }
}

/// The same of an account of a given make, whose own component holds `own`.
pub proof fn lemma_unsupported_type_makes_nothing(
    before: SessionView,
    after: SessionView,
    rng_before: ClientRng,
    rng_after: ClientRng,
    authentication: Authentication,
    with_wallet: bool,
    own: ComponentView,
    account_type: AccountType,
    storage_mode: AccountStorageMode,
    result: Result<NewAccount, ComposeError>,
)
    requires
        account_made(
            before,
            after,
            rng_before,
            rng_after,
            authentication,
            with_wallet,
            Some(own),
            account_type,
            storage_mode,
            result,
        ),
        !own.supported_types.contains(account_type),
    ensures
        result is Err,
        before.synced ==> result == Err::<NewAccount, ComposeError>(
            ComposeError::AccountBuildFailure,
        ),
        after.accounts == before.accounts,
        after.keys == before.keys,
        after.unauthenticated == before.unauthenticated,
{
    let plan = choose|plan: AccountPlan| #[trigger]
        planned(plan, authentication, with_wallet, Some(own), account_type, storage_mode)
            && account_built(before, after, rng_before, rng_after, plan, result);
    lemma_unsupported_type_builds_nothing(before, after, rng_before, rng_after, plan, result);
}

/// Where the account types that the account's own component supports leave
/// out the account's type, [`create_account_with_component`] builds nothing
/// and leaves the registries of accounts and keys as they were. Where the
/// component can be assembled and the local view is current, the failure is
/// a build failure.
pub proof fn lemma_unsupported_type_builds_no_component_account(
    before: SessionView,
    after: SessionView,
    rng_before: ClientRng,
    rng_after: ClientRng,
    package: ComponentPackage,
    config: AccountCreationConfig,
    result: Result<NewAccount, ComposeError>,
)
    requires
        component_account_made(before, after, rng_before, rng_after, package, config, result),
        !resolved_types(
            config.supported_types,
            AccountType::RegularAccountUpdatableCode,
        ).contains(config.account_type),
    ensures
        result is Err,
        after.accounts == before.accounts,
        after.keys == before.keys,
        after.unauthenticated == before.unauthenticated,
        before.synced && assembly_of(
            package,
            config.storage_slots@,
            config.supported_types,
            AccountType::RegularAccountUpdatableCode,
        ) is Ok ==> result == Err::<NewAccount, ComposeError>(ComposeError::AccountBuildFailure),
{
    let outcome = assembly_of(
        package,
        config.storage_slots@,
        config.supported_types,
        AccountType::RegularAccountUpdatableCode,
    );
    if outcome is Ok {
        lemma_unsupported_type_makes_nothing(
            before,
            after,
            rng_before,
            rng_after,
            Authentication::FreshKey,
            config.with_basic_wallet,
            outcome->Ok_0,
            config.account_type,
            config.storage_mode,
            result,
        );
    }
}

/// The same for [`create_account_with_component_and_auth_package`]; there
/// the authentication package must hold a library as well for the failure to
/// be a build failure.
pub proof fn lemma_unsupported_type_builds_no_custom_auth_account(
    before: SessionView,
    after: SessionView,
    rng_before: ClientRng,
    rng_after: ClientRng,
    component_package: ComponentPackage,
    auth_component_package: Package,
    config: AccountCreationConfig,
    result: Result<NewAccount, ComposeError>,
)
    requires
        custom_auth_account_made(
            before,
            after,
            rng_before,
            rng_after,
            component_package,
            auth_component_package,
            config,
            result,
        ),
        !resolved_types(
            config.supported_types,
            AccountType::RegularAccountUpdatableCode,
        ).contains(config.account_type),
    ensures
        result is Err,
        after.accounts == before.accounts,
        after.keys == before.keys,
        after.unauthenticated == before.unauthenticated,
        before.synced && package_view(auth_component_package).artifact is Library
            && assembly_of(
            component_package,
            config.storage_slots@,
            config.supported_types,
            AccountType::RegularAccountUpdatableCode,
        ) is Ok ==> result == Err::<NewAccount, ComposeError>(ComposeError::AccountBuildFailure),
{
    let outcome = assembly_of(
        component_package,
        config.storage_slots@,
        config.supported_types,
        AccountType::RegularAccountUpdatableCode,
    );
    if outcome is Ok && package_view(auth_component_package).artifact is Library {
        lemma_unsupported_type_makes_nothing(
            before,
            after,
            rng_before,
            rng_after,
            Authentication::Custom(custom_auth_view(auth_component_package, config)),
            config.with_basic_wallet,
            outcome->Ok_0,
            config.account_type,
            config.storage_mode,
            result,
        );
    }
}

/// The same for [`create_account_from_package`], whose component supports
/// immutable-code regular accounts alone where no types are named.
pub proof fn lemma_unsupported_type_builds_no_package_account(
    before: SessionView,
    after: SessionView,
    rng_before: ClientRng,
    rng_after: ClientRng,
    package: ComponentPackage,
    config: AccountCreationConfig,
    result: Result<NewAccount, ComposeError>,
)
    requires
        package_account_made(before, after, rng_before, rng_after, package, config, result),
        !resolved_types(
            config.supported_types,
            AccountType::RegularAccountImmutableCode,
        ).contains(config.account_type),
    ensures
        result is Err,
        after.accounts == before.accounts,
        after.keys == before.keys,
        after.unauthenticated == before.unauthenticated,
        before.synced && assembly_of(
            package,
            config.storage_slots@,
            config.supported_types,
            AccountType::RegularAccountImmutableCode,
        ) is Ok ==> result == Err::<NewAccount, ComposeError>(ComposeError::AccountBuildFailure),
{
    let outcome = assembly_of(
        package,
        config.storage_slots@,
        config.supported_types,
        AccountType::RegularAccountImmutableCode,
    );
    if outcome is Ok {
        lemma_unsupported_type_makes_nothing(
            before,
            after,
            rng_before,
            rng_after,
            Authentication::Nothing,
            false,
            outcome->Ok_0,
            config.account_type,
            config.storage_mode,
            result,
        );
    }
}

/// A package without a component description builds no account, whichever
/// function is asked: the failure says so, nothing is drawn from the random
/// source, and the session is as it was.
pub proof fn lemma_missing_metadata_builds_nothing(
    before: SessionView,
    after: SessionView,
    rng_before: ClientRng,
    rng_after: ClientRng,
    package: ComponentPackage,
    auth_component_package: Package,
    config: AccountCreationConfig,
    result: Result<NewAccount, ComposeError>,
)
    requires
        package_view(*package.package).metadata is None,
        component_account_made(before, after, rng_before, rng_after, package, config, result)
            || custom_auth_account_made(
            before,
            after,
            rng_before,
            rng_after,
            package,
            auth_component_package,
            config,
            result,
        ) || package_account_made(before, after, rng_before, rng_after, package, config, result),
    ensures
        result == Err::<NewAccount, ComposeError>(ComposeError::MissingComponentMetadata),
        after == before,
        rng_after == rng_before,
{
}

} // verus!
