//! Compiled packages as the library takes them in, and the command line
//! that compiles them.

use miden_mast_package::Package;
use std::sync::Arc;
use vstd::prelude::*;

use crate::types::LayoutEntry;

verus! {

/// The arguments that make the package compiler build the project whose
/// manifest lies at `manifest_path`, with the release profile or the debug
/// profile.
pub open spec fn build_command(manifest_path: Seq<char>, release: bool) -> Seq<Seq<char>> {
    seq![
        "cargo"@,
        "miden"@,
        "build"@,
        if release {
            "--release"@
        } else {
            "--debug"@
        },
        "--manifest-path"@,
        manifest_path,
    ]
}

/// Computes [`build_command`].
pub fn build_arguments(manifest_path: &str, release: bool) -> (arguments: Vec<String>)
    ensures
        arguments@.len() == 6,
        forall|i: int|
            0 <= i < 6 ==> (#[trigger] arguments@[i])@ == build_command(manifest_path@, release)[i],
{
    let profile: &str = if release {
        "--release"
    } else {
        "--debug"
    };
    let mut arguments: Vec<String> = Vec::new();
    arguments.push("cargo".to_owned());
    arguments.push("miden".to_owned());
    arguments.push("build".to_owned());
    arguments.push(profile.to_owned());
    arguments.push("--manifest-path".to_owned());
    arguments.push(manifest_path.to_owned());
    arguments
}

/// A compiled package that may describe an account component, with the
/// storage layout that its component description declares.
///
/// Decoding is the work of whoever reads the package in: the package comes
/// decoded, and so does the layout, each storage entry of the description
/// reduced to its variant and its slot indices.
pub struct ComponentPackage {
    /// The package: shared, and never changed once it is loaded.
    pub package: Arc<Package>,
    /// The declared storage layout; none where the package carries no
    /// component description, or one that does not decode.
    pub layout: Option<Vec<LayoutEntry>>,
}

} // verus!
