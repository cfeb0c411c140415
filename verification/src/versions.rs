//! Daemon releases and the compatibility mode that follows from them.

use vstd::prelude::*;
use vstd::string::StringExecFns;

verus! {

/// A released daemon build that the harness knows by name.
#[derive(Clone, Copy, Debug, PartialEq, Eq, Structural)]
pub enum Release {
    /// Release `v0.5.0`.
    V0_5_0,
    /// Release `v0.5.1`.
    V0_5_1,
}

/// Which daemon build is driven, and hence which command line it understands.
#[derive(Clone, Copy, Debug, PartialEq, Eq, Structural)]
pub struct Compat {
    /// The pinned release, if any.
    pub release: Option<Release>,
    /// Whether the daemon is a legacy build that takes the cookie value inline.
    pub legacy: bool,
}

/// The version tag of a release, or `NA` where none is pinned.
pub open spec fn version_text(release: Option<Release>) -> Seq<char> {
    match release {
        Some(Release::V0_5_0) => "v0.5.0"@,
        Some(Release::V0_5_1) => "v0.5.1"@,
        None => "NA"@,
    }
}

/// The name of the release archive, without its extension.
pub open spec fn electrs_name_text(release: Option<Release>) -> Seq<char> {
    "esplora-tapyrus-"@ + version_text(release) + "-x86_64-unknown-linux-gnu"@
}

impl Compat {
    /// The mode of a current daemon with no pinned release.
    pub open spec fn current() -> Compat {
        Compat { release: None, legacy: false }
    }

    /// Whether a release is pinned.
    pub open spec fn spec_has_release(&self) -> bool {
        self.release is Some
    }

    /// Whether the daemon imports blocks over JSON-RPC instead of the
    /// peer-to-peer port.
    pub open spec fn spec_import_mode(&self) -> bool {
        self.release is Some || self.legacy
    }

    /// Whether a release is pinned.
    #[verifier::when_used_as_spec(spec_has_release)]
    pub fn has_release(&self) -> (b: bool)
        ensures
            b == self.spec_has_release(),
    {
        self.release.is_some()
    }

    /// Whether the daemon imports blocks over JSON-RPC instead of the
    /// peer-to-peer port.
    #[verifier::when_used_as_spec(spec_import_mode)]
    pub fn import_mode(&self) -> (b: bool)
        ensures
            b == self.spec_import_mode(),
    {
        self.release.is_some() || self.legacy
    }
}

impl Default for Compat {
    fn default() -> (c: Compat)
        ensures
            c == Compat::current(),
    {
        Compat { release: None, legacy: false }
    }
}

/// The version tag of a release, or `NA` where none is pinned.
pub fn version(release: Option<Release>) -> (tag: &'static str)
    ensures
        tag@ == version_text(release),
{
    match release {
        Some(Release::V0_5_0) => "v0.5.0",
        Some(Release::V0_5_1) => "v0.5.1",
        None => "NA",
    }
}

/// The name of the release archive of the daemon, without its extension.
pub fn electrs_name(release: Option<Release>) -> (name: String)
    ensures
        name@ == electrs_name_text(release),
{
    let mut name = String::from_str("esplora-tapyrus-");
    name.append(version(release));
    name.append("-x86_64-unknown-linux-gnu");
    name
}

} // verus!
