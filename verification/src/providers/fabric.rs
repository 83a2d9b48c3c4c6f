use vstd::prelude::*;

use crate::foundation::options::LoaderKind;
use crate::foundation::text::{chars_of, replace_first, replace_first_exec, string_of};

verus! {

/// Where a Fabric-like loader publishes its versions and profiles.
#[derive(Debug, Clone, Copy)]
pub struct Endpoints {
    pub metadata: &'static str,
    pub profile: &'static str,
}

pub const FABRIC_METADATA: &'static str = "https://meta.fabricmc.net/v2/versions";
pub const FABRIC_PROFILE: &'static str =
    "https://meta.fabricmc.net/v2/versions/loader/${version}/${build}/profile/json";
pub const LEGACY_FABRIC_METADATA: &'static str = "https://meta.legacyfabric.net/v2/versions";
pub const LEGACY_FABRIC_PROFILE: &'static str =
    "https://meta.legacyfabric.net/v2/versions/loader/${version}/${build}/profile/json";
pub const QUILT_METADATA: &'static str = "https://meta.quiltmc.org/v3/versions";
pub const QUILT_PROFILE: &'static str =
    "https://meta.quiltmc.org/v3/versions/loader/${version}/${build}/profile/json";

/// The endpoints of a loader kind, as their texts: Fabric, Legacy Fabric and Quilt have some.
pub open spec fn spec_endpoints(kind: LoaderKind) -> Option<(Seq<char>, Seq<char>)> {
    match kind {
        LoaderKind::Fabric => Some((FABRIC_METADATA@, FABRIC_PROFILE@)),
        LoaderKind::LegacyFabric => Some((LEGACY_FABRIC_METADATA@, LEGACY_FABRIC_PROFILE@)),
        LoaderKind::Quilt => Some((QUILT_METADATA@, QUILT_PROFILE@)),
        LoaderKind::Forge | LoaderKind::NeoForge => None,
    }
}

impl Endpoints {
    /// The endpoints of a Fabric-like loader.
    pub fn for_kind(kind: LoaderKind) -> (r: Option<Self>)
        ensures
            match r {
                Some(e) => spec_endpoints(kind) == Some((e.metadata@, e.profile@)),
                None => spec_endpoints(kind) is None,
            },
    {
        match kind {
            LoaderKind::Fabric => Some(Endpoints { metadata: FABRIC_METADATA, profile: FABRIC_PROFILE }),
            LoaderKind::LegacyFabric => Some(
                Endpoints { metadata: LEGACY_FABRIC_METADATA, profile: LEGACY_FABRIC_PROFILE },
            ),
            LoaderKind::Quilt => Some(Endpoints { metadata: QUILT_METADATA, profile: QUILT_PROFILE }),
            LoaderKind::Forge | LoaderKind::NeoForge => None,
        }
    }

    /// The profile URL for a game version and loader build.
    pub fn profile_url(&self, version: &str, build: &str) -> (r: String)
        ensures
            r@ == replace_first(replace_first(self.profile@, "${build}"@, build@), "${version}"@, version@),
    {
        let with_build = replace_first_exec(&chars_of(self.profile), &chars_of("${build}"), &chars_of(build));
        let with_version = replace_first_exec(&with_build, &chars_of("${version}"), &chars_of(version));
        string_of(&with_version)
    }
}

#[derive(Debug, Clone)]
pub struct VersionsMeta {
    pub game: Vec<GameVersion>,
    pub loader: Vec<LoaderVersion>,
}

#[derive(Debug, Clone)]
pub struct GameVersion {
    pub version: String,
    pub stable: bool,
}

#[derive(Debug, Clone)]
pub struct LoaderVersion {
    pub version: String,
    pub stable: bool,
}

} // verus!
