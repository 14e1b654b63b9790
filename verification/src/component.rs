//! Turning a compiled package and a storage configuration into an account
//! component.

use miden_mast_package::Package;
use miden_objects::account::{AccountComponent, StorageSlot};
use vstd::prelude::*;

use crate::error::ComposeError;
use crate::layout::{check_layout, layout_matches, MAX_COMPONENT_SLOTS};
use crate::ledger::account::{
    clone_storage_slot, component_view, new_component, slot_kind, storage_slot_kind,
    with_supported_types, ComponentView,
};
use crate::ledger::package::{package_library, package_metadata, package_view, Artifact};
use crate::package::ComponentPackage;
use crate::types::{AccountStorageMode, AccountType, LayoutEntry, SlotKind};

verus! {

/// How an account is to be made.
pub struct AccountCreationConfig {
    /// The type of the account.
    pub account_type: AccountType,
    /// Where the account's state is kept.
    pub storage_mode: AccountStorageMode,
    /// The storage slots of the account's own component, in order.
    pub storage_slots: Vec<StorageSlot>,
    /// The account types that the account's own component is to support; the
    /// assembling function's single default type where none are given.
    pub supported_types: Option<Vec<AccountType>>,
    /// Whether the standard wallet component is attached as well.
    pub with_basic_wallet: bool,
}

impl Default for AccountCreationConfig {
    /// An updatable-code regular account with public storage, no storage
    /// slots of its own, the default supported type, and the standard wallet.
    fn default() -> (config: Self)
        ensures
            config.account_type == AccountType::RegularAccountUpdatableCode,
            config.storage_mode == AccountStorageMode::Public,
            config.storage_slots@.len() == 0,
            config.supported_types is None,
            config.with_basic_wallet,
    {
        AccountCreationConfig {
            account_type: AccountType::RegularAccountUpdatableCode,
            storage_mode: AccountStorageMode::Public,
            storage_slots: Vec::new(),
            supported_types: None,
            with_basic_wallet: true,
        }
    }
}

impl AccountCreationConfig {
    /// An immutable-code regular account with public storage, no storage
    /// slots of its own, the default supported type, and no standard wallet.
    pub fn immutable_code() -> (config: Self)
        ensures
            config.account_type == AccountType::RegularAccountImmutableCode,
            config.storage_mode == AccountStorageMode::Public,
            config.storage_slots@.len() == 0,
            config.supported_types is None,
            !config.with_basic_wallet,
    {
        AccountCreationConfig {
            account_type: AccountType::RegularAccountImmutableCode,
            storage_mode: AccountStorageMode::Public,
            storage_slots: Vec::new(),
            supported_types: None,
            with_basic_wallet: false,
        }
    }
}

impl Clone for AccountCreationConfig {
    /// A copy that names the same types and holds the same storage slots.
    fn clone(&self) -> (copy: Self)
        ensures
            copy.account_type == self.account_type,
            copy.storage_mode == self.storage_mode,
            copy.storage_slots@ == self.storage_slots@,
            copy.supported_types is Some == self.supported_types is Some,
            copy.supported_types is Some ==> copy.supported_types->Some_0@
                == self.supported_types->Some_0@,
            copy.with_basic_wallet == self.with_basic_wallet,
    {
        let supported_types = match &self.supported_types {
            None => None,
            Some(types) => {
                let mut copied: Vec<AccountType> = Vec::new();
                let mut i: usize = 0;
                while i < types.len()
                    invariant
                        i <= types.len(),
                        copied@ == types@.take(i as int),
                    decreases types.len() - i,
                {
                    copied.push(types[i]);
                    i = i + 1;
                }
                Some(copied)
            },
        };
        AccountCreationConfig {
            account_type: self.account_type,
            storage_mode: self.storage_mode,
            storage_slots: clone_slots(&self.storage_slots),
            supported_types,
            with_basic_wallet: self.with_basic_wallet,
        }
    }
}

/// The shapes of `slots`, in order.
pub open spec fn slot_kinds(slots: Seq<StorageSlot>) -> Seq<SlotKind> {
    slots.map_values(|slot: StorageSlot| slot_kind(slot))
}

/// The account types that a component supports: those given, taken as they
/// are, or `fallback` alone where none are given.
pub open spec fn resolved_types(supported: Option<Vec<AccountType>>, fallback: AccountType) -> Set<
    AccountType,
> {
    match supported {
        Some(types) => types@.to_set(),
        None => set![fallback],
    }
}

/// What assembling a component from a package, its declared `layout` and
/// `slots` comes to: the contents of the component, or the failure.
pub open spec fn assembly_outcome(
    package: Package,
    layout: Option<Seq<LayoutEntry>>,
    slots: Seq<StorageSlot>,
    supported: Option<Vec<AccountType>>,
    fallback: AccountType,
) -> Result<ComponentView, ComposeError> {
    let held = package_view(package);
    if held.metadata is None {
        Err(ComposeError::MissingComponentMetadata)
    } else {
        match (layout, held.artifact) {
            (None, _) => Err(ComposeError::InvalidComponentMetadata),
            (Some(_), Artifact::Executable(_)) => Err(ComposeError::WrongArtifact),
            (Some(declared), Artifact::Library(library)) => if layout_matches(
                declared,
                slot_kinds(slots),
            ) && slots.len() <= MAX_COMPONENT_SLOTS {
                Ok(
                    ComponentView {
                        library,
                        slots,
                        supported_types: resolved_types(supported, fallback),
                    },
                )
            } else {
                Err(ComposeError::StorageLayoutMismatch)
            },
        }
    }
}

/// The declared layout of a package, as a sequence.
pub open spec fn layout_of(package: ComponentPackage) -> Option<Seq<LayoutEntry>> {
    match package.layout {
        Some(layout) => Some(layout@),
        None => None,
    }
}

/// What assembling a component from `package` and `slots` comes to.
pub open spec fn assembly_of(
    package: ComponentPackage,
    slots: Seq<StorageSlot>,
    supported: Option<Vec<AccountType>>,
    fallback: AccountType,
) -> Result<ComponentView, ComposeError> {
    assembly_outcome(*package.package, layout_of(package), slots, supported, fallback)
}

/// `result` is what assembling a component from `package` and `slots` gives.
pub open spec fn assembled(
    package: ComponentPackage,
    slots: Seq<StorageSlot>,
    supported: Option<Vec<AccountType>>,
    fallback: AccountType,
    result: Result<AccountComponent, ComposeError>,
) -> bool {
    match assembly_of(package, slots, supported, fallback) {
        Ok(view) => result is Ok && component_view(result->Ok_0) == view,
        Err(error) => result == Err::<AccountComponent, ComposeError>(error),
    }
}

/// The shapes of `slots`, in order.
pub fn kinds_of(slots: &Vec<StorageSlot>) -> (kinds: Vec<SlotKind>)
    ensures
        kinds@ == slot_kinds(slots@),
{
    let mut kinds: Vec<SlotKind> = Vec::new();
    let mut i: usize = 0;
    while i < slots.len()
        invariant
            i <= slots.len(),
            kinds@ == slot_kinds(slots@.take(i as int)),
        decreases slots.len() - i,
    {
        kinds.push(storage_slot_kind(&slots[i]));
        assert(slots@.take(i + 1).drop_last() == slots@.take(i as int));
        i = i + 1;
    }
    assert(slots@.take(slots.len() as int) == slots@);
    kinds
}

/// A copy of `slots`.
pub fn clone_slots(slots: &Vec<StorageSlot>) -> (copy: Vec<StorageSlot>)
    ensures
        copy@ == slots@,
{
    let mut copy: Vec<StorageSlot> = Vec::new();
    let mut i: usize = 0;
    while i < slots.len()
        invariant
            i <= slots.len(),
            copy@ == slots@.take(i as int),
        decreases slots.len() - i,
    {
        copy.push(clone_storage_slot(&slots[i]));
        i = i + 1;
    }
    copy
}

/// Assembles an account component from a package and storage slots.
///
/// The package must carry a component description whose layout came
/// decoded, and must hold a library. The slots are held against the declared
/// layout: they must agree with it in count and shape, and a component holds
/// at most 255 of them. The component supports the account types in
/// `supported_types`, or `fallback` alone where none are given.
pub fn assemble_component(
    package: &ComponentPackage,
    storage_slots: Vec<StorageSlot>,
    supported_types: &Option<Vec<AccountType>>,
    fallback: AccountType,
) -> (result: Result<AccountComponent, ComposeError>)
    ensures
        assembled(*package, storage_slots@, *supported_types, fallback, result),
{
    if package_metadata(&package.package).is_none() {
        return Err(ComposeError::MissingComponentMetadata);
    }
    let layout = match &package.layout {
        None => {
            return Err(ComposeError::InvalidComponentMetadata);
        },
        Some(layout) => layout,
    };
    let library = match package_library(&package.package) {
        None => {
            return Err(ComposeError::WrongArtifact);
        },
        Some(library) => library,
    };
    let kinds = kinds_of(&storage_slots);
    if !check_layout(layout, &kinds) {
        return Err(ComposeError::StorageLayoutMismatch);
    }
    let component = match new_component(library, storage_slots) {
        Err(_) => {
            return Err(ComposeError::StorageLayoutMismatch);
        },
        Ok(component) => component,
    };
    match supported_types {
        Some(types) => Ok(with_supported_types(component, types)),
        None => {
            let types = vec![fallback];
            assert(types@.to_set() =~= set![fallback]) by {
                assert(types@[0] == fallback);
            }
            Ok(with_supported_types(component, &types))
        },
    }
}

/// Assembles the component of an immutable-code account from a package: the
/// component supports the account types that `config` names, or
/// immutable-code regular accounts alone where it names none.
pub fn account_component_from_package(
    package: &ComponentPackage,
    config: &AccountCreationConfig,
) -> (result: Result<AccountComponent, ComposeError>)
    ensures
        assembled(
            *package,
            config.storage_slots@,
            config.supported_types,
            AccountType::RegularAccountImmutableCode,
            result,
        ),
{
    let slots = clone_slots(&config.storage_slots);
    assemble_component(
        package,
        slots,
        &config.supported_types,
        AccountType::RegularAccountImmutableCode,
    )
}

/// Assembling is repeatable: two assemblies from the same package, slots
/// and supported types end alike, with the same failure or with components
/// that hold the same library, the same storage slots and the same set of
/// supported account types.
pub proof fn lemma_assembly_is_repeatable(
    package: ComponentPackage,
    slots: Seq<StorageSlot>,
    supported: Option<Vec<AccountType>>,
    fallback: AccountType,
    first: Result<AccountComponent, ComposeError>,
    second: Result<AccountComponent, ComposeError>,
)
    requires
        assembled(package, slots, supported, fallback, first),
        assembled(package, slots, supported, fallback, second),
    ensures
        first is Ok <==> second is Ok,
        first is Err ==> first == second,
        first is Ok ==> component_view(first->Ok_0) == component_view(second->Ok_0),
        first is Ok ==> slot_kinds(component_view(first->Ok_0).slots) == slot_kinds(
            component_view(second->Ok_0).slots,
        ),
{
}

} // verus!
