use vstd::prelude::*;

use crate::foundation::os::{Arch, Platform};
use crate::foundation::urls::{pair_views, query_url, url_with_query};

verus! {

pub const PACKAGES_URL: &'static str = "https://api.azul.com/metadata/v1/zulu/packages/";

/// A Zulu package offered by Azul.
#[derive(Debug, Clone)]
pub struct Package {
    pub name: String,
    pub download_url: String,
    pub java_version: Vec<u64>,
    pub latest: bool,
    pub package_uuid: String,
    pub product: String,
}

/// What is asked of Azul's package list.
#[derive(Debug, Clone, PartialEq, Eq)]
pub struct PackageQuery {
    pub java_version: String,
    pub os: String,
    pub arch: String,
    pub archive_type: String,
    pub java_package_type: String,
}

/// The query parameters of a package query, in order.
pub open spec fn spec_query_pairs(q: PackageQuery) -> Seq<(Seq<char>, Seq<char>)> {
    seq![
        ("java_version"@, q.java_version@),
        ("os"@, q.os@),
        ("arch"@, q.arch@),
        ("archive_type"@, q.archive_type@),
        ("java_package_type"@, q.java_package_type@),
    ]
}

impl PackageQuery {
    /// The query's parameters, in the order they go into the URL.
    pub fn pairs(&self) -> (r: Vec<(String, String)>)
        ensures
            pair_views(r@) == spec_query_pairs(*self),
    {
        let mut r: Vec<(String, String)> = Vec::new();
        r.push(("java_version".to_owned(), self.java_version.clone()));
        r.push(("os".to_owned(), self.os.clone()));
        r.push(("arch".to_owned(), self.arch.clone()));
        r.push(("archive_type".to_owned(), self.archive_type.clone()));
        r.push(("java_package_type".to_owned(), self.java_package_type.clone()));
        assert(pair_views(r@) =~= spec_query_pairs(*self));
        r
    }

    /// The package list URL for the query.
    pub fn url(&self) -> (r: Option<String>)
        ensures
            match r {
                Some(s) => url_with_query(PACKAGES_URL@, spec_query_pairs(*self)) == Some(s@),
                None => url_with_query(PACKAGES_URL@, spec_query_pairs(*self)) is None,
            },
    {
        query_url(PACKAGES_URL, &self.pairs())
    }
}

pub open spec fn spec_platform_name(platform: Platform) -> Seq<char> {
    match platform {
        Platform::Windows => "windows"@,
        Platform::MacOs => "macos"@,
        Platform::Linux => "linux"@,
    }
}

pub open spec fn spec_arch_name(arch: Arch) -> Seq<char> {
    match arch {
        Arch::X64 => "x64"@,
        Arch::X86 => "x32"@,
        Arch::Arm64 => "aarch64"@,
        Arch::Arm => "arm"@,
    }
}

/// Azul's name for a platform.
pub fn platform_name(platform: Platform) -> (r: &'static str)
    ensures
        r@ == spec_platform_name(platform),
{
    match platform {
        Platform::Windows => "windows",
        Platform::MacOs => "macos",
        Platform::Linux => "linux",
    }
}

/// Azul's name for an architecture.
pub fn arch_name(arch: Arch) -> (r: &'static str)
    ensures
        r@ == spec_arch_name(arch),
{
    match arch {
        Arch::X64 => "x64",
        Arch::X86 => "x32",
        Arch::Arm64 => "aarch64",
        Arch::Arm => "arm",
    }
}

} // verus!
