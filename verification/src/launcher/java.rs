use vstd::prelude::*;

use crate::foundation::os::{Arch, Platform};
use crate::foundation::paths::{path_join, spec_path_join};
use crate::foundation::text::{
    chars_of, ends_with, ends_with_exec, slice, string_of, trim, trim_exec,
};
use crate::providers::azul::{arch_name, platform_name, spec_arch_name, spec_platform_name, PackageQuery};
use crate::resolver::AzulRequest;

verus! {

/// The archive types asked of Azul, in order of preference.
pub const ARCHIVE_ZIP: &'static str = "zip";
pub const ARCHIVE_TAR_GZ: &'static str = "tar.gz";

/// What follows an answer of Azul to a package query: install the first package it listed,
/// ask again for the next archive type, or give up.
#[derive(Debug, Clone, Copy, PartialEq, Eq)]
pub enum AzulNext {
    Ask(&'static str),
    UseFirst,
    NotFound,
}

/// The archive type asked for first.
pub fn first_archive_type() -> (r: &'static str)
    ensures
        r@ == ARCHIVE_ZIP@,
{
    ARCHIVE_ZIP
}

/// The step after the query for the archive type at position `asked` (zip first, then
/// tar.gz) listed `found` packages: the first package as soon as any is listed, a tar.gz
/// query after an empty zip answer, and nothing after an empty tar.gz answer.
pub fn azul_next(asked: usize, found: usize) -> (r: AzulNext)
    ensures
        found > 0 ==> r is UseFirst,
        found == 0 && asked == 0 ==> (r matches AzulNext::Ask(t) && t@ == ARCHIVE_TAR_GZ@),
        found == 0 && asked >= 1 ==> r is NotFound,
{
    if found > 0 {
        AzulNext::UseFirst
    } else if asked == 0 {
        AzulNext::Ask(ARCHIVE_TAR_GZ)
    } else {
        AzulNext::NotFound
    }
}

/// The directory an archive unpacks to: its name without `.tar.gz` or `.zip`.
pub open spec fn spec_package_directory(name: Seq<char>) -> Seq<char> {
    if ends_with(name, ".tar.gz"@) {
        name.subrange(0, name.len() - 7)
    } else if ends_with(name, ".zip"@) {
        name.subrange(0, name.len() - 4)
    } else {
        name
    }
}

/// The directory an archive unpacks to.
pub fn package_directory(name: &str) -> (r: String)
    ensures
        r@ == spec_package_directory(name@),
{
    proof {
        reveal_strlit(".tar.gz");
        reveal_strlit(".zip");
    }
    let n = chars_of(name);
    if ends_with_exec(&n, &chars_of(".tar.gz")) {
        return string_of(&slice(&n, 0, n.len() - 7));
    }
    if ends_with_exec(&n, &chars_of(".zip")) {
        return string_of(&slice(&n, 0, n.len() - 4));
    }
    name.to_owned()
}

/// The permissions an extracted file gets: the archive's mode bits when they are set, else
/// `rwxr-xr-x`.
pub open spec fn spec_file_mode(mode: Option<u32>) -> u32 {
    match mode {
        Some(m) if m & 0o7777 != 0 => m & 0o7777,
        _ => 0o755,
    }
}

/// The permissions an extracted file gets.
pub fn file_mode(mode: Option<u32>) -> (r: u32)
    ensures
        r == spec_file_mode(mode),
{
    match mode {
        Some(m) => {
            let bits = m & 0o7777;
            if bits != 0 {
                bits
            } else {
                0o755
            }
        },
        None => 0o755,
    }
}

/// The Azul query for a Java request on a platform, with an archive type.
pub fn package_query(request: &AzulRequest, platform: Platform, arch: Arch, archive_type: &str) -> (r: PackageQuery)
    ensures
        r.java_version == request.major_version,
        r.os@ == spec_platform_name(platform),
        r.arch@ == spec_arch_name(arch),
        r.archive_type@ == archive_type@,
        r.java_package_type == request.package_type,
{
    PackageQuery {
        java_version: request.major_version.clone(),
        os: platform_name(platform).to_owned(),
        arch: arch_name(arch).to_owned(),
        archive_type: archive_type.to_owned(),
        java_package_type: request.package_type.clone(),
    }
}

/// `root/runtime/jre-<major>`.
pub open spec fn spec_azul_folder(root: Seq<char>, major: Seq<char>) -> Seq<char> {
    spec_path_join(spec_path_join(root, "runtime"@), "jre-"@ + major)
}

/// Where an Azul Java of a major version is installed.
pub fn azul_folder(root: &str, major: &str) -> (r: String)
    ensures
        r@ == spec_azul_folder(root@, major@),
{
    let runtime = path_join(root, "runtime");
    let mut name = chars_of("jre-");
    crate::foundation::text::append(&mut name, major);
    path_join(runtime.as_str(), string_of(&name).as_str())
}

/// The name of the Java executable on a platform.
pub open spec fn spec_java_binary(platform: Platform) -> Seq<char> {
    if platform == Platform::Windows {
        "java.exe"@
    } else {
        "java"@
    }
}

/// The name of the Java executable on a platform.
pub fn java_binary(platform: Platform) -> (r: &'static str)
    ensures
        r@ == spec_java_binary(platform),
{
    match platform {
        Platform::Windows => "java.exe",
        _ => "java",
    }
}

/// Where a Java is looked for first: `bin/<java>` directly under the directory, then in a
/// macOS bundle (`Contents/Home/bin/<java>`).
pub fn direct_candidates(directory: &str, platform: Platform) -> (r: (String, String))
    ensures
        r.0@ == spec_path_join(spec_path_join(directory@, "bin"@), spec_java_binary(platform)),
        r.1@ == spec_path_join(
            spec_path_join(spec_path_join(spec_path_join(directory@, "Contents"@), "Home"@), "bin"@),
            spec_java_binary(platform),
        ),
{
    let exe = java_binary(platform);
    let bin = path_join(directory, "bin");
    let direct = path_join(bin.as_str(), exe);
    let contents = path_join(directory, "Contents");
    let home = path_join(contents.as_str(), "Home");
    let bundle_bin = path_join(home.as_str(), "bin");
    let bundle = path_join(bundle_bin.as_str(), exe);
    (direct, bundle)
}

/// Where a `bin` file that holds a path (as some packages leave) points the Java to.
pub fn linked_candidate(directory: &str, link: &str, platform: Platform) -> (r: String)
    ensures
        r@ == spec_path_join(spec_path_join(directory@, trim(link@)), spec_java_binary(platform)),
{
    let target = string_of(&trim_exec(&chars_of(link)));
    let dir = path_join(directory, target.as_str());
    path_join(dir.as_str(), java_binary(platform))
}

/// Whether an archive name is a gzipped tarball (`.tar.gz` or `.tgz`); others are zips.
pub fn is_tar_gz(name: &str) -> (r: bool)
    ensures
        r == (ends_with(name@, ".tar.gz"@) || ends_with(name@, ".tgz"@)),
{
    let n = chars_of(name);
    ends_with_exec(&n, &chars_of(".tar.gz")) || ends_with_exec(&n, &chars_of(".tgz"))
}

} // verus!
