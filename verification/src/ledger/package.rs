use miden_mast_package::{MastArtifact, Package};
use miden_objects::assembly::Library;
use miden_objects::vm::Program;
use std::sync::Arc;
use vstd::prelude::*;

verus! {

/// `miden_mast_package::Package`: a compiled artifact with its manifest.
#[verifier::external_type_specification]
#[verifier::external_body]
pub struct ExPackage(Package);

/// `miden_assembly::Library`: the code of a library.
#[verifier::external_type_specification]
#[verifier::external_body]
pub struct ExLibrary(Library);

/// `miden_core::Program`: a code forest with its entrypoint.
#[verifier::external_type_specification]
#[verifier::external_body]
pub struct ExProgram(Program);

/// The code that a package carries.
pub enum Artifact {
    Library(Library),
    Executable(Program),
}

/// What a package holds, as far as this library reads it.
pub struct PackageView {
    /// The serialized component description, where the package has one.
    pub metadata: Option<Seq<u8>>,
    /// The package's code.
    pub artifact: Artifact,
}

/// The contents of a package: its fields `account_component_metadata_bytes`
/// and `mast`.
pub uninterp spec fn package_view(package: Package) -> PackageView;

/// Reads the field `account_component_metadata_bytes` of a package.
#[verifier::external_body]
pub(crate) fn package_metadata(package: &Package) -> (bytes: Option<Vec<u8>>)
    ensures
        bytes is Some <==> package_view(*package).metadata is Some,
        bytes is Some ==> Some(bytes->Some_0@) == package_view(*package).metadata,
{
    package.account_component_metadata_bytes.clone()
}

/// Reads the field `mast` of a package: a copy of the library, where the
/// package holds one. (`Package::unwrap_library` panics where it holds none.)
#[verifier::external_body]
pub(crate) fn package_library(package: &Package) -> (library: Option<Library>)
    ensures
        library == match package_view(*package).artifact {
            Artifact::Library(held) => Some(held),
            Artifact::Executable(_) => None,
        },
{
    match &package.mast {
        MastArtifact::Library(library) => Some(library.as_ref().clone()),
        MastArtifact::Executable(_) => None,
    }
}

/// Reads the field `mast` of a package: the program, where the package holds
/// one. (`Package::unwrap_program` panics where it holds none.)
#[verifier::external_body]
pub(crate) fn package_program(package: &Package) -> (program: Option<Arc<Program>>)
    ensures
        program is Some <==> package_view(*package).artifact is Executable,
        program is Some ==> package_view(*package).artifact == Artifact::Executable(
            *program->Some_0,
        ),
{
    match &package.mast {
        MastArtifact::Executable(program) => Some(Arc::clone(program)),
        MastArtifact::Library(_) => None,
    }
}

} // verus!
