use vstd::prelude::*;

use crate::foundation::text::{chars_of, replace_all, replace_all_exec, string_of};

verus! {

pub const METADATA_URL: &'static str =
    "https://files.minecraftforge.net/net/minecraftforge/forge/maven-metadata.json";
pub const PROMOTIONS_URL: &'static str =
    "https://files.minecraftforge.net/net/minecraftforge/forge/promotions_slim.json";
pub const META_URL: &'static str =
    "https://files.minecraftforge.net/net/minecraftforge/forge/${build}/meta.json";
pub const INSTALLER_URL: &'static str =
    "https://maven.minecraftforge.net/net/minecraftforge/forge/${version}/forge-${version}-installer";
pub const UNIVERSAL_URL: &'static str =
    "https://maven.minecraftforge.net/net/minecraftforge/forge/${version}/forge-${version}-universal";
pub const CLIENT_URL: &'static str =
    "https://maven.minecraftforge.net/net/minecraftforge/forge/${version}/forge-${version}-client";

/// Forge's promotions: labels such as `1.20.1-recommended` and the builds they point at.
#[derive(Debug, Clone)]
pub struct Promotions {
    pub promos: Vec<(String, String)>,
}

/// The files of a Forge build: by classifier, then by extension, their hashes.
#[derive(Debug, Clone)]
pub struct BuildMeta {
    pub classifiers: Vec<(String, Vec<(String, String)>)>,
}

/// `template` with every `${<name>}` replaced by `value`.
fn fill(template: &str, placeholder: &str, value: &str) -> (r: String)
    requires
        placeholder@.len() > 0,
    ensures
        r@ == replace_all(template@, placeholder@, value@),
{
    string_of(&replace_all_exec(&chars_of(template), &chars_of(placeholder), &chars_of(value)))
}

/// The metadata URL of a build.
pub fn meta_url(build: &str) -> (r: String)
    ensures
        r@ == replace_all(META_URL@, "${build}"@, build@),
{
    proof {
        reveal_strlit("${build}");
    }
    fill(META_URL, "${build}", build)
}

/// The installer URL of a build, without its extension.
pub fn installer_url(build: &str) -> (r: String)
    ensures
        r@ == replace_all(INSTALLER_URL@, "${version}"@, build@),
{
    proof {
        reveal_strlit("${version}");
    }
    fill(INSTALLER_URL, "${version}", build)
}

/// The universal jar URL of a build, without its extension.
pub fn universal_url(build: &str) -> (r: String)
    ensures
        r@ == replace_all(UNIVERSAL_URL@, "${version}"@, build@),
{
    proof {
        reveal_strlit("${version}");
    }
    fill(UNIVERSAL_URL, "${version}", build)
}

/// The client jar URL of a build, without its extension.
pub fn client_url(build: &str) -> (r: String)
    ensures
        r@ == replace_all(CLIENT_URL@, "${version}"@, build@),
{
    proof {
        reveal_strlit("${version}");
    }
    fill(CLIENT_URL, "${version}", build)
}

} // verus!
