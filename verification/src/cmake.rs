//! The command lines of `cmake` that configure and install a technique.

use crate::text::texts;
use crate::utils::{lies_under, starts_with};
use vstd::prelude::*;
use vstd::string::*;

verus! {

/// The kind of build that `cmake` is asked for.
#[derive(Clone, Copy, Debug, PartialEq, Eq, Structural)]
pub enum BuildType {
    Debug,
    Release,
}

impl Default for BuildType {
    fn default() -> (kind: BuildType)
        ensures
            kind == BuildType::Debug,
    {
        BuildType::Debug
    }
}

impl BuildType {
    /// The kind as `cmake` names it.
    pub open spec fn spec_as_str(self) -> Seq<char> {
        match self {
            BuildType::Debug => "Debug"@,
            BuildType::Release => "Release"@,
        }
    }

    /// The kind as `cmake` names it.
    pub fn as_str(&self) -> (name: &'static str)
        ensures
            name@ == self.spec_as_str(),
    {
        match self {
            BuildType::Debug => "Debug",
            BuildType::Release => "Release",
        }
    }
}

/// The arguments of the `cmake` that configures a build.
pub open spec fn config_args(build_type: BuildType, install_prefix: Seq<char>, source: Seq<char>)
    -> Seq<Seq<char>> {
    seq![
        "-DCMAKE_BUILD_TYPE="@ + build_type.spec_as_str(),
        "-DCMAKE_INSTALL_PREFIX="@ + install_prefix,
        source,
    ]
}

/// The arguments with which `cmake` configures a build of the given kind in the
/// current directory.
pub fn config(build_type: BuildType, install_prefix: &str, source_path: &str) -> (args: Vec<
    String,
>)
    ensures
        texts(args@) == config_args(build_type, install_prefix@, source_path@),
{
    let mut kind = String::from_str("-DCMAKE_BUILD_TYPE=");
    kind.append(build_type.as_str());
    let mut prefix = String::from_str("-DCMAKE_INSTALL_PREFIX=");
    prefix.append(install_prefix);
    let mut args: Vec<String> = Vec::new();
    args.push(kind);
    args.push(prefix);
    args.push(String::from_str(source_path));
    assert(texts(args@) =~= config_args(build_type, install_prefix@, source_path@));
    args
}

/// The arguments with which `cmake` builds and installs what the current directory
/// was configured for: `--build . --target install`.
pub fn install() -> (args: Vec<String>)
    ensures
        texts(args@) == seq!["--build"@, "."@, "--target"@, "install"@],
{
    let mut args: Vec<String> = Vec::new();
    args.push(String::from_str("--build"));
    args.push(String::from_str("."));
    args.push(String::from_str("--target"));
    args.push(String::from_str("install"));
    assert(texts(args@) =~= seq!["--build"@, "."@, "--target"@, "install"@]);
    args
}

/// Whether a build installed nothing outside of its prefix: every path that its
/// install manifest lists lies under the prefix.
pub open spec fn contained(prefix: Seq<char>, manifest: Seq<Seq<char>>) -> bool {
    forall|i: int| 0 <= i < manifest.len() ==> lies_under(#[trigger] manifest[i], prefix)
}

/// Whether every path of an install manifest lies under the install prefix.
pub fn manifest_contained(prefix: &str, manifest: &Vec<String>) -> (ok: bool)
    ensures
        ok == contained(prefix@, texts(manifest@)),
{
    let mut i: usize = 0;
    while i < manifest.len()
        invariant
            i <= manifest.len(),
            forall|k: int| 0 <= k < i ==> lies_under(#[trigger] texts(manifest@)[k], prefix@),
        decreases manifest.len() - i,
    {
        if !starts_with(manifest[i].as_str(), prefix) {
            assert(!lies_under(texts(manifest@)[i as int], prefix@));
            return false;
        }
        i += 1;
    }
    true
}

} // verus!
