use miden_client::account::component::{AuthRpoFalcon512, BasicWallet, NoAuth};
use miden_core::Word;
use miden_objects::account::{
    Account, AccountBuilder, AccountComponent, AccountId, StorageSlot, StorageSlotType,
};
use miden_objects::assembly::Library;
use miden_objects::crypto::dsa::rpo_falcon512::PublicKey;
use miden_objects::AccountError;
use vstd::prelude::*;

use crate::types::{AccountStorageMode, AccountType, SlotKind};

verus! {

/// `miden_objects::account::StorageSlot`: the contents of one storage slot.
#[verifier::external_type_specification]
#[verifier::external_body]
pub struct ExStorageSlot(StorageSlot);

/// `miden_objects::account::AccountComponent`: code, storage slots and the
/// account types that the code may be attached to.
#[verifier::external_type_specification]
#[verifier::external_body]
pub struct ExAccountComponent(AccountComponent);

/// `miden_objects::account::AccountBuilder`.
#[verifier::external_type_specification]
#[verifier::external_body]
pub struct ExAccountBuilder(AccountBuilder);

/// `miden_objects::account::Account`.
#[verifier::external_type_specification]
#[verifier::external_body]
pub struct ExAccount(Account);

/// `miden_objects::account::AccountId`.
#[verifier::external_type_specification]
#[verifier::external_body]
pub struct ExAccountId(AccountId);

/// `miden_lib::account::wallets::BasicWallet`: the marker that stands for
/// the standard wallet component.
#[verifier::external_type_specification]
#[verifier::external_body]
pub struct ExBasicWallet(BasicWallet);

/// `miden_lib::account::auth::NoAuth`: the marker that stands for the
/// authentication component that checks nothing.
#[verifier::external_type_specification]
#[verifier::external_body]
pub struct ExNoAuth(NoAuth);

/// `miden_objects::AccountError`.
#[verifier::external_type_specification]
#[verifier::external_body]
pub struct ExAccountError(AccountError);

/// What an account component holds.
pub struct ComponentView {
    pub library: Library,
    pub slots: Seq<StorageSlot>,
    pub supported_types: Set<AccountType>,
}

/// What an account builder has been given so far.
pub struct BuilderView {
    pub init_seed: Seq<u8>,
    pub account_type: AccountType,
    pub storage_mode: AccountStorageMode,
    pub auth: Option<AccountComponent>,
    pub components: Seq<AccountComponent>,
}

/// What this library reads of an account.
pub struct AccountView {
    pub id: AccountId,
    pub account_type: AccountType,
    pub storage_mode: AccountStorageMode,
    /// The commitment to the account's code: to the procedures of all its
    /// components, in merging order.
    pub code_commitment: Word,
    pub slots: Seq<StorageSlot>,
}

/// The shape of a storage slot: which of the two variants it is.
pub uninterp spec fn slot_kind(slot: StorageSlot) -> SlotKind;

/// The storage slot that holds a public key as its word: the one slot of the
/// signature-checking authentication component.
pub uninterp spec fn key_slot(public_key: PublicKey) -> StorageSlot;

/// The contents of a component: its library, its storage slots in order and
/// its set of supported account types.
pub uninterp spec fn component_view(component: AccountComponent) -> ComponentView;

/// The standard wallet component: `AccountComponent::from` on a
/// `BasicWallet`.
pub uninterp spec fn wallet_component(wallet: BasicWallet) -> AccountComponent;

/// The authentication component that checks nothing:
/// `AccountComponent::from` on a `NoAuth`.
pub uninterp spec fn no_auth_component_of(no_auth: NoAuth) -> AccountComponent;

/// Whether the ledger's builder makes an account of the type `account_type`
/// out of the components `order`, the authentication component first. It
/// decides on the components and the account type alone.
pub uninterp spec fn components_build(
    order: Seq<AccountComponent>,
    account_type: AccountType,
) -> bool;

/// The commitment to the code that the ledger's builder merges from the
/// components `order` for an account of the type `account_type`.
pub uninterp spec fn merged_code(order: Seq<AccountComponent>, account_type: AccountType) -> Word;

/// The authentication component that checks signatures against a public
/// key: `AccountComponent::from(AuthRpoFalcon512::new(public_key))`.
pub uninterp spec fn falcon_component(public_key: PublicKey) -> AccountComponent;

/// The contents of a builder: its fields.
pub uninterp spec fn builder_view(builder: AccountBuilder) -> BuilderView;

/// The contents of an account: its identifier, the type and storage mode that
/// the identifier encodes, the commitment to its code, and its storage slots
/// in order.
pub uninterp spec fn account_view(account: Account) -> AccountView;

/// The identifier that `AccountId::new` derives from a seed, the commitment
/// to an account's code, and the commitment to its storage, which is taken
/// over the storage slots.
pub uninterp spec fn seeded_id(
    seed: Word,
    code_commitment: Word,
    slots: Seq<StorageSlot>,
) -> AccountId;

/// The storage slots of `components`, one component after the other.
pub open spec fn merged_slots(components: Seq<AccountComponent>) -> Seq<StorageSlot>
    decreases components.len(),
{
    if components.len() == 0 {
        Seq::empty()
    } else {
        merged_slots(components.drop_last()) + component_view(components.last()).slots
    }
}

/// The number of slots that the ledger reserves at the start of an account's
/// storage: one for a faucet, none for a regular account.
pub open spec fn reserved_slots(account_type: AccountType) -> nat {
    match account_type {
        AccountType::FungibleFaucet | AccountType::NonFungibleFaucet => 1,
        _ => 0,
    }
}

/// The components that a builder merges, in the order in which it merges
/// them: the authentication component first.
pub open spec fn build_order(builder: BuilderView) -> Seq<AccountComponent> {
    seq![builder.auth->Some_0] + builder.components
}

/// `StorageSlot::slot_type`.
#[verifier::external_body]
pub(crate) fn storage_slot_kind(slot: &StorageSlot) -> (kind: SlotKind)
    ensures
        kind == slot_kind(*slot),
{
    match slot.slot_type() {
        StorageSlotType::Value => SlotKind::Word,
        StorageSlotType::Map => SlotKind::Mapping,
    }
}

/// `StorageSlot::clone`: the copy holds what the slot holds.
#[verifier::external_body]
pub(crate) fn clone_storage_slot(slot: &StorageSlot) -> (copy: StorageSlot)
    ensures
        copy == *slot,
{
    slot.clone()
}

/// `AccountComponent::new`: fails on more than 255 slots and on nothing
/// else. The new component supports no account type yet.
#[verifier::external_body]
pub(crate) fn new_component(library: Library, slots: Vec<StorageSlot>) -> (made: Result<
    AccountComponent,
    AccountError,
>)
    ensures
        made is Ok <==> slots@.len() <= 255,
        made is Ok ==> component_view(made->Ok_0) == (ComponentView {
            library,
            slots: slots@,
            supported_types: Set::empty(),
        }),
{
    AccountComponent::new(library, slots)
}

/// `AccountComponent::with_supported_types`: replaces the set of supported
/// account types and keeps the rest.
#[verifier::external_body]
pub(crate) fn with_supported_types(component: AccountComponent, types: &Vec<AccountType>) -> (made:
    AccountComponent)
    ensures
        component_view(made) == (ComponentView {
            supported_types: types@.to_set(),
            ..component_view(component)
        }),
{
    component.with_supported_types(types.iter().map(|account_type| match account_type {
        AccountType::FungibleFaucet => miden_objects::account::AccountType::FungibleFaucet,
        AccountType::NonFungibleFaucet => miden_objects::account::AccountType::NonFungibleFaucet,
        AccountType::RegularAccountImmutableCode => {
            miden_objects::account::AccountType::RegularAccountImmutableCode
        },
        AccountType::RegularAccountUpdatableCode => {
            miden_objects::account::AccountType::RegularAccountUpdatableCode
        },
    }).collect())
}

/// The standard wallet component, `AccountComponent::from(BasicWallet)`: no
/// storage, every account type supported.
#[verifier::external_body]
pub(crate) fn basic_wallet_component() -> (made: AccountComponent)
    ensures
        exists|wallet: BasicWallet| made == wallet_component(wallet),
        component_view(made).slots.len() == 0,
        forall|account_type: AccountType|
            component_view(made).supported_types.contains(account_type),
{
    AccountComponent::from(BasicWallet)
}

/// The signature-checking authentication component,
/// `AccountComponent::from(AuthRpoFalcon512::new(public_key))`: one storage
/// slot, which holds the key, and every account type supported.
#[verifier::external_body]
pub(crate) fn falcon_auth_component(public_key: PublicKey) -> (made: AccountComponent)
    ensures
        made == falcon_component(public_key),
        component_view(made).slots == seq![key_slot(public_key)],
        forall|account_type: AccountType|
            component_view(made).supported_types.contains(account_type),
{
    AccountComponent::from(AuthRpoFalcon512::new(public_key))
}

/// The authentication component that checks nothing,
/// `AccountComponent::from(NoAuth)`: no storage, every account type supported.
#[verifier::external_body]
pub(crate) fn no_auth_component() -> (made: AccountComponent)
    ensures
        exists|no_auth: NoAuth| made == no_auth_component_of(no_auth),
        component_view(made).slots.len() == 0,
        forall|account_type: AccountType|
            component_view(made).supported_types.contains(account_type),
{
    AccountComponent::from(NoAuth)
}

/// `AccountBuilder::new`: a builder for an updatable-code regular account
/// with private storage, with no component yet.
#[verifier::external_body]
pub(crate) fn new_builder(init_seed: [u8; 32]) -> (builder: AccountBuilder)
    ensures
        builder_view(builder) == (BuilderView {
            init_seed: init_seed@,
            account_type: AccountType::RegularAccountUpdatableCode,
            storage_mode: AccountStorageMode::Private,
            auth: None,
            components: Seq::empty(),
        }),
{
    AccountBuilder::new(init_seed)
}

/// `AccountBuilder::account_type`.
#[verifier::external_body]
pub(crate) fn builder_account_type(builder: AccountBuilder, account_type: AccountType) -> (made:
    AccountBuilder)
    ensures
        builder_view(made) == (BuilderView { account_type, ..builder_view(builder) }),
{
    builder.account_type(match account_type {
        AccountType::FungibleFaucet => miden_objects::account::AccountType::FungibleFaucet,
        AccountType::NonFungibleFaucet => miden_objects::account::AccountType::NonFungibleFaucet,
        AccountType::RegularAccountImmutableCode => {
            miden_objects::account::AccountType::RegularAccountImmutableCode
        },
        AccountType::RegularAccountUpdatableCode => {
            miden_objects::account::AccountType::RegularAccountUpdatableCode
        },
    })
}

/// `AccountBuilder::storage_mode`.
#[verifier::external_body]
pub(crate) fn builder_storage_mode(
    builder: AccountBuilder,
    storage_mode: AccountStorageMode,
) -> (made: AccountBuilder)
    ensures
        builder_view(made) == (BuilderView { storage_mode, ..builder_view(builder) }),
{
    builder.storage_mode(match storage_mode {
        AccountStorageMode::Public => miden_objects::account::AccountStorageMode::Public,
        AccountStorageMode::Network => miden_objects::account::AccountStorageMode::Network,
        AccountStorageMode::Private => miden_objects::account::AccountStorageMode::Private,
    })
}

/// `AccountBuilder::with_auth_component`: sets the authentication component,
/// in place of an earlier one.
#[verifier::external_body]
pub(crate) fn builder_with_auth(builder: AccountBuilder, component: AccountComponent) -> (made:
    AccountBuilder)
    ensures
        builder_view(made) == (BuilderView { auth: Some(component), ..builder_view(builder) }),
{
    builder.with_auth_component(component)
}

/// `AccountBuilder::with_component`: adds a component behind those added
/// before.
#[verifier::external_body]
pub(crate) fn builder_with_component(builder: AccountBuilder, component: AccountComponent) -> (made:
    AccountBuilder)
    ensures
        builder_view(made) == (BuilderView {
            components: builder_view(builder).components.push(component),
            ..builder_view(builder)
        }),
{
    builder.with_component(component)
}

/// `AccountBuilder::build`. Without an authentication component it fails.
/// With one, whether it succeeds rests with the components in merging order
/// and the account type alone: searching for a seed does not fail. It fails
/// where a component does not support the account type, and where the
/// account would have more than 255 storage slots. An account that it builds
/// has the type and the storage mode asked for, the code merged from the
/// components, and as storage the reserved slot of a faucet, then the
/// components' slots in merging order. The second value is the seed that the
/// account's identifier derives from.
#[verifier::external_body]
pub(crate) fn build_account(builder: AccountBuilder) -> (built: Result<
    (Account, Word),
    AccountError,
>)
    ensures
        builder_view(builder).auth is None ==> built is Err,
        builder_view(builder).auth is Some ==> (built is Ok <==> components_build(
            build_order(builder_view(builder)),
            builder_view(builder).account_type,
        )),
        (exists|i: int|
            0 <= i < build_order(builder_view(builder)).len() && !component_view(
                #[trigger] build_order(builder_view(builder))[i],
            ).supported_types.contains(builder_view(builder).account_type)) ==> built is Err,
        reserved_slots(builder_view(builder).account_type) + merged_slots(
            build_order(builder_view(builder)),
        ).len() > 255 ==> built is Err,
        built is Ok ==> {
            let account = account_view(built->Ok_0.0);
            &&& account.id == seeded_id(built->Ok_0.1, account.code_commitment, account.slots)
            &&& account.account_type == builder_view(builder).account_type
            &&& account.storage_mode == builder_view(builder).storage_mode
            &&& account.code_commitment == merged_code(
                build_order(builder_view(builder)),
                builder_view(builder).account_type,
            )
            &&& account.slots.skip(reserved_slots(account.account_type) as int) == merged_slots(
                build_order(builder_view(builder)),
            )
            &&& account.slots.len() >= reserved_slots(account.account_type)
        },
{
    builder.build()
}

/// `Account::id`.
#[verifier::external_body]
pub(crate) fn account_id(account: &Account) -> (id: AccountId)
    ensures
        id == account_view(*account).id,
{
    account.id()
}

} // verus!
