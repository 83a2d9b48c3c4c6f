use vstd::prelude::*;

use super::{
    InstallSection, LoaderError,
};
use crate::foundation::maven::{
    library_path, spec_library_path,
};
use crate::foundation::paths::{
    join, path_join, spec_path_join,
};
use crate::foundation::text::{
    append, chars_of, contains, contains_exec, lookup, key_index, push_all, starts_with, starts_with_exec, str_eq, string_of, string_views,
};
use crate::launcher::arguments::{
    file_part, join_strings, spec_file_part,
};
use crate::providers::forge::{
    client_url, installer_url, universal_url, BuildMeta, Promotions,
};
use crate::providers::neoforge::{
    minecraft_version_of, spec_minecraft_version_of,
};
use crate::providers::launchermeta::{
    spec_library_models, Library, LibraryModel,
};
use crate::foundation::os::{
    spec_mojang_name, Platform,
};
use crate::foundation::rules::{
    skip_library_node, spec_skip_library_node,
};

verus! {

/// The two families of installer-based loaders.
#[derive(Debug, Clone, Copy, PartialEq, Eq, Structural)]
pub enum Flavor {
    Forge,
    NeoForge,
}

/// The Maven prefix of the universal library: Forge's, the old NeoForge API's, or NeoForge's.
pub open spec fn spec_universal_prefix(flavor: Flavor, old_api: bool) -> Seq<char> {
    match flavor {
        Flavor::Forge => "net.minecraftforge:forge"@,
        Flavor::NeoForge => if old_api {
            "net.neoforged:forge"@
        } else {
            "net.neoforged:neoforge"@
        },
    }
}

/// The Maven prefix of the universal library of an installer.
pub fn universal_prefix(flavor: Flavor, old_api: bool) -> (r: &'static str)
    ensures
        r@ == spec_universal_prefix(flavor, old_api),
{
    match flavor {
        Flavor::Forge => "net.minecraftforge:forge",
        Flavor::NeoForge => if old_api {
            "net.neoforged:forge"
        } else {
            "net.neoforged:neoforge"
        },
    }
}

/// The name of the flavor in messages about its installer.
pub fn profile_name(flavor: Flavor) -> (r: &'static str)
    ensures
        r@ == (if flavor == Flavor::Forge { "forge"@ } else { "neoForge"@ }),
{
    match flavor {
        Flavor::Forge => "forge",
        Flavor::NeoForge => "neoForge",
    }
}

/// The error for an installer without an `install_profile.json`.
pub fn missing_profile_error(flavor: Flavor) -> (r: LoaderError)
    ensures
        r matches LoaderError::Invalid(m) && m@ == "Invalid "@ + (if flavor == Flavor::Forge {
            "forge"@
        } else {
            "neoForge"@
        }) + " installer"@,
{
    let mut m = chars_of("Invalid ");
    append(&mut m, profile_name(flavor));
    append(&mut m, " installer");
    LoaderError::Invalid(string_of(&m))
}

/// The error for an installer whose version JSON is missing.
pub fn missing_version_json_error(flavor: Flavor) -> (r: LoaderError)
    ensures
        r matches LoaderError::Invalid(m) && m@ == (if flavor == Flavor::Forge {
            "Invalid additional JSON in forge installer"@
        } else {
            "Unable to read additional JSON from neoForge installer"@
        }),
{
    match flavor {
        Flavor::Forge => LoaderError::Invalid("Invalid additional JSON in forge installer".to_owned()),
        Flavor::NeoForge => LoaderError::Invalid(
            "Unable to read additional JSON from neoForge installer".to_owned(),
        ),
    }
}

/// The archive entry that holds the version JSON of a newer installer: the last part of the
/// profile's `json` path, `version.json` by default.
pub open spec fn spec_version_json_name(json: Option<Seq<char>>) -> Seq<char> {
    match json {
        Some(j) => spec_file_part(j),
        None => "version.json"@,
    }
}

/// The archive entry that holds the version JSON of a newer installer.
pub fn version_json_name(install: &InstallSection) -> (r: String)
    ensures
        r@ == spec_version_json_name(match install.json {
            Some(j) => Some(j@),
            None => None,
        }),
{
    match &install.json {
        Some(j) => file_part(j),
        None => "version.json".to_owned(),
    }
}

/// Whether a NeoForge profile names nothing to install: no libraries, no processors, no path
/// and no file path.
pub open spec fn spec_empty_profile(install: InstallSection) -> bool {
    install.libraries@.len() == 0 && install.processors@.len() == 0 && install.path is None
        && install.file_path is None
}

/// The check a NeoForge installer profile must pass: one that names nothing is refused.
pub fn check_profile(flavor: Flavor, install: &InstallSection) -> (r: Result<(), LoaderError>)
    ensures
        (flavor == Flavor::NeoForge && spec_empty_profile(*install)) ==> (r matches Err(
            LoaderError::Invalid(m),
        ) && m@ == "Invalid neoForge profile"@),
        !(flavor == Flavor::NeoForge && spec_empty_profile(*install)) ==> r is Ok,
{
    if flavor == Flavor::NeoForge && install.libraries.len() == 0 && install.processors.len() == 0
        && install.path.is_none() && install.file_path.is_none() {
        return Err(LoaderError::Invalid("Invalid neoForge profile".to_owned()));
    }
    Ok(())
}

/// The builds Forge lists for a game version, or that it supports none.
pub fn forge_builds(metadata: &Vec<(String, Vec<String>)>, minecraft: &str) -> (r: Result<
    Vec<String>,
    LoaderError,
>)
    ensures
        match lookup(metadata@, minecraft@) {
            Some(b) => (r matches Ok(v) && string_views(v@) == string_views(b@)),
            None => (r matches Err(LoaderError::Unsupported(m)) && m@ == "Forge "@ + minecraft@
                + " not supported"@),
        },
{
    match key_index(metadata, minecraft) {
        Some(k) => Ok(crate::foundation::text::clone_strings(&metadata[k].1)),
        None => {
            let mut m = chars_of("Forge ");
            append(&mut m, minecraft);
            append(&mut m, " not supported");
            Err(LoaderError::Unsupported(string_of(&m)))
        },
    }
}

/// Whether a build name is resolved through Forge's promotions.
pub fn needs_promotions(build: &str) -> (r: bool)
    ensures
        r == (build@ == "latest"@ || build@ == "recommended"@),
{
    str_eq(build, "latest") || str_eq(build, "recommended")
}

/// The index of the first build whose name contains `promo`.
pub open spec fn spec_first_containing(builds: Seq<Seq<char>>, promo: Seq<char>, i: int) -> Option<int>
    decreases builds.len() - i,
{
    if i < 0 || i >= builds.len() {
        None
    } else if contains(builds[i], promo) {
        Some(i)
    } else {
        spec_first_containing(builds, promo, i + 1)
    }
}

/// The promoted build a label points at, if any.
pub open spec fn spec_promoted(promos: Seq<(String, String)>, minecraft: Seq<char>, recommended: bool) -> Option<Seq<char>> {
    let latest = lookup(promos, minecraft + "-latest"@);
    let chosen = if recommended {
        match lookup(promos, minecraft + "-recommended"@) {
            Some(p) => Some(p),
            None => latest,
        }
    } else {
        latest
    };
    match chosen {
        Some(p) => Some(p@),
        None => None,
    }
}

/// The build that a build name asks for: for `latest` and `recommended` the first listed build
/// that contains the promoted one (`recommended` falls back to `latest`), if any; otherwise
/// the name itself.
pub open spec fn spec_wanted_build(build: Seq<char>, minecraft: Seq<char>, promos: Seq<(String, String)>, builds: Seq<Seq<char>>) -> Option<Seq<char>> {
    if build == "latest"@ || build == "recommended"@ {
        match spec_promoted(promos, minecraft, build == "recommended"@) {
            Some(p) => match spec_first_containing(builds, p, 0) {
                Some(i) => Some(builds[i]),
                None => None,
            },
            None => None,
        }
    } else {
        Some(build)
    }
}

fn promo_of(promotions: &Promotions, key: &Vec<char>) -> (r: Option<String>)
    ensures
        r matches Some(p) ==> lookup(promotions.promos@, key@) matches Some(q) && p@ == q@,
        r is None ==> lookup(promotions.promos@, key@) is None,
{
    let k = string_of(key);
    match key_index(&promotions.promos, k.as_str()) {
        Some(i) => Some(promotions.promos[i].1.clone()),
        None => None,
    }
}

/// The build that a build name asks for. Promotions are read only for `latest` and
/// `recommended`.
pub fn wanted_build(build: &str, minecraft: &str, promotions: &Promotions, builds: &Vec<String>) -> (r: Option<String>)
    ensures
        opt_string_view(r) == spec_wanted_build(build@, minecraft@, promotions.promos@, string_views(builds@)),
{
    if !needs_promotions(build) {
        return Some(build.to_owned());
    }
    let recommended = str_eq(build, "recommended");
    let mut latest_key = chars_of(minecraft);
    append(&mut latest_key, "-latest");
    let latest = promo_of(promotions, &latest_key);
    let chosen = if recommended {
        let mut key = chars_of(minecraft);
        append(&mut key, "-recommended");
        match promo_of(promotions, &key) {
            Some(p) => Some(p),
            None => latest,
        }
    } else {
        latest
    };
    let promo = match chosen {
        Some(p) => chars_of(p.as_str()),
        None => {
            return None;
        },
    };
    let ghost bv = string_views(builds@);
    assert(spec_promoted(promotions.promos@, minecraft@, build@ == "recommended"@) == Some(promo@));
    let ghost goal = spec_wanted_build(build@, minecraft@, promotions.promos@, bv);
    let mut i: usize = 0;
    while i < builds.len()
        invariant
            i <= builds.len(),
            bv == string_views(builds@),
            goal == spec_wanted_build(build@, minecraft@, promotions.promos@, bv),
            goal == match spec_first_containing(bv, promo@, 0) {
                Some(k) => Some(bv[k]),
                None => None::<Seq<char>>,
            },
            spec_first_containing(bv, promo@, 0) == spec_first_containing(bv, promo@, i as int),
        decreases builds.len() - i,
    {
        if contains_exec(&chars_of(builds[i].as_str()), &promo) {
            assert(bv[i as int] == builds@[i as int]@);
            return Some(builds[i].clone());
        }
        i = i + 1;
    }
    None
}

/// A text option taken by its view.
pub open spec fn opt_string_view(o: Option<String>) -> Option<Seq<char>> {
    match o {
        Some(s) => Some(s@),
        None => None,
    }
}

/// The Forge build to install: the wanted build when Forge lists it; otherwise an error that
/// names it (`undefined` when there is none) and lists the builds.
pub open spec fn spec_choose_forge_build(builds: Seq<Seq<char>>, wanted: Option<Seq<char>>) -> Result<Seq<char>, Seq<char>> {
    match wanted {
        Some(w) if builds.contains(w) => Ok(w),
        _ => Err("Build "@ + (match wanted {
            Some(w) => w,
            None => "undefined"@,
        }) + " not found, Available builds: "@ + join(builds, ", "@)),
    }
}

/// The Forge build to install, or the error that says it is not listed.
pub fn choose_forge_build(builds: &Vec<String>, wanted: Option<String>) -> (r: Result<String, LoaderError>)
    ensures
        match spec_choose_forge_build(string_views(builds@), opt_string_view(wanted)) {
            Ok(b) => (r matches Ok(v) && v@ == b),
            Err(m) => (r matches Err(LoaderError::Unsupported(e)) && e@ == m),
        },
{
    if let Some(w) = &wanted {
        if crate::foundation::text::contains_string(builds, w.as_str()) {
            return Ok(w.clone());
        }
    }
    let mut m = chars_of("Build ");
    match &wanted {
        Some(w) => append(&mut m, w.as_str()),
        None => append(&mut m, "undefined"),
    }
    append(&mut m, " not found, Available builds: ");
    push_all(&mut m, &join_strings(builds, ", "));
    Err(LoaderError::Unsupported(string_of(&m)))
}

/// An installer to download: where from, its file name, where it goes, the MD5 hash it must
/// have (Forge lists one), and whether it uses the old NeoForge API.
#[derive(Debug, Clone)]
pub struct InstallerFile {
    pub url: String,
    pub file_name: String,
    pub path: String,
    pub md5: Option<String>,
    pub old_api: bool,
}

/// The installer folder of a flavor under the loader directory.
pub open spec fn spec_installer_dir(loader_dir: Seq<char>, vendor: Seq<char>) -> Seq<char> {
    spec_path_join(
        spec_path_join(spec_path_join(spec_path_join(loader_dir, "libraries"@), "net"@), vendor),
        "installer"@,
    )
}

fn installer_dir(loader_dir: &str, vendor: &str) -> (r: String)
    ensures
        r@ == spec_installer_dir(loader_dir@, vendor@),
{
    let a = path_join(loader_dir, "libraries");
    let b = path_join(a.as_str(), "net");
    let c = path_join(b.as_str(), vendor);
    path_join(c.as_str(), "installer")
}

/// The classifiers tried for a Forge installer, in order.
pub open spec fn spec_forge_classifier(k: int) -> Seq<char> {
    if k == 0 {
        "installer"@
    } else if k == 1 {
        "client"@
    } else {
        "universal"@
    }
}

/// The download URL, without extension, of the `k`th classifier of a Forge build.
pub open spec fn spec_forge_base(k: int, build: Seq<char>) -> Seq<char> {
    let template = if k == 0 {
        crate::providers::forge::INSTALLER_URL@
    } else if k == 1 {
        crate::providers::forge::CLIENT_URL@
    } else {
        crate::providers::forge::UNIVERSAL_URL@
    };
    crate::foundation::text::replace_all(template, "${version}"@, build)
}

/// The first classifier, from the `k`th on, that the build lists with at least one file, and
/// that file's extension and hash.
pub open spec fn spec_forge_pick(classifiers: Seq<(String, Vec<(String, String)>)>, k: int) -> Option<(int, Seq<char>, Seq<char>)>
    decreases 3 - k,
{
    if k < 0 || k >= 3 {
        None
    } else {
        match lookup(classifiers, spec_forge_classifier(k)) {
            Some(files) if files@.len() > 0 => Some((k, files@[0].0@, files@[0].1@)),
            _ => spec_forge_pick(classifiers, k + 1),
        }
    }
}

/// The Forge installer of a build: the installer, client or universal file that the build's
/// metadata lists first, under `libraries/net/minecraftforge/installer`.
pub open spec fn spec_forge_installer(meta: BuildMeta, build: Seq<char>, loader_dir: Seq<char>) -> Option<(Seq<char>, Seq<char>, Seq<char>, Seq<char>)> {
    match spec_forge_pick(meta.classifiers@, 0) {
        Some((k, ext, md5)) => {
            let url = spec_forge_base(k, build) + "."@ + ext;
            let file = spec_file_part(url);
            Some((url, file, spec_path_join(spec_installer_dir(loader_dir, "minecraftforge"@), file), md5))
        },
        None => None,
    }
}

fn forge_base(k: usize, build: &str) -> (r: String)
    requires
        k < 3,
    ensures
        r@ == spec_forge_base(k as int, build@),
{
    if k == 0 {
        installer_url(build)
    } else if k == 1 {
        client_url(build)
    } else {
        universal_url(build)
    }
}

fn forge_classifier(k: usize) -> (r: &'static str)
    requires
        k < 3,
    ensures
        r@ == spec_forge_classifier(k as int),
{
    if k == 0 {
        "installer"
    } else if k == 1 {
        "client"
    } else {
        "universal"
    }
}

/// The Forge installer to download for a build, or the error for metadata that lists none.
pub fn forge_installer(meta: &BuildMeta, build: &str, loader_dir: &str) -> (r: Result<InstallerFile, LoaderError>)
    ensures
        match spec_forge_installer(*meta, build@, loader_dir@) {
            Some((url, file, path, md5)) => (r matches Ok(f) && f.url@ == url && f.file_name@ == file
                && f.path@ == path && (f.md5 matches Some(h) && h@ == md5) && f.old_api),
            None => (r matches Err(LoaderError::Invalid(m)) && m@ == "Invalid forge installer"@),
        },
{
    let mut k: usize = 0;
    while k < 3
        invariant
            k <= 3,
            spec_forge_pick(meta.classifiers@, 0) == spec_forge_pick(meta.classifiers@, k as int),
        decreases 3 - k,
    {
        let name = forge_classifier(k);
        match key_index(&meta.classifiers, name) {
            Some(i) => {
                let files = &meta.classifiers[i].1;
                if files.len() > 0 {
                    let mut url = chars_of(forge_base(k, build).as_str());
                    append(&mut url, ".");
                    append(&mut url, files[0].0.as_str());
                    let url = string_of(&url);
                    let file_name = file_part(&url);
                    let dir = installer_dir(loader_dir, "minecraftforge");
                    let path = path_join(dir.as_str(), file_name.as_str());
                    return Ok(InstallerFile {
                        url,
                        file_name,
                        path,
                        md5: Some(files[0].1.clone()),
                        old_api: true,
                    });
                }
            },
            None => {},
        }
        k = k + 1;
    }
    Err(LoaderError::Invalid("Invalid forge installer".to_owned()))
}

/// The check of a downloaded Forge installer's MD5 hash against the listed one, ignoring
/// ASCII case.
pub fn check_installer_hash(actual: &str, expected: &str) -> (r: Result<(), LoaderError>)
    ensures
        crate::foundation::text::lower(actual@) == crate::foundation::text::lower(expected@) ==> r is Ok,
        crate::foundation::text::lower(actual@) != crate::foundation::text::lower(expected@) ==> (r matches Err(
            LoaderError::Invalid(m),
        ) && m@ == "Invalid hash"@),
{
    if crate::checker::eq_ignore_ascii_case(actual, expected) {
        Ok(())
    } else {
        Err(LoaderError::Invalid("Invalid hash".to_owned()))
    }
}

/// The NeoForge builds for a game version: the legacy builds that contain `<version>-`, with
/// the old API; when there are none, the newer builds made for that version.
pub open spec fn spec_neoforge_versions(minecraft: Seq<char>, legacy: Seq<Seq<char>>, modern: Seq<Seq<char>>) -> (Seq<Seq<char>>, bool) {
    let old = legacy.filter(|v: Seq<char>| contains(v, minecraft + "-"@));
    if old.len() > 0 {
        (old, true)
    } else {
        (modern.filter(|v: Seq<char>| spec_minecraft_version_of(v) == Some(minecraft)), false)
    }
}

/// The NeoForge installer for a game version and build name: `latest` and `recommended` take
/// the last listed build; any other name must be listed. The installer goes under
/// `libraries/net/neoforged/installer` as `neoForge-<build>-installer.jar`.
pub open spec fn spec_neoforge_installer(minecraft: Seq<char>, build: Seq<char>, legacy: Seq<Seq<char>>, modern: Seq<Seq<char>>, loader_dir: Seq<char>) -> Result<(Seq<char>, Seq<char>, Seq<char>, bool), Seq<char>> {
    let (versions, old_api) = spec_neoforge_versions(minecraft, legacy, modern);
    if versions.len() == 0 {
        Err("NeoForge doesn't support Minecraft "@ + minecraft)
    } else {
        let chosen = if build == "latest"@ || build == "recommended"@ {
            Some(versions.last())
        } else if versions.contains(build) {
            Some(build)
        } else {
            None
        };
        match chosen {
            Some(b) => {
                let url = if old_api {
                    crate::foundation::text::replace_all(crate::providers::neoforge::LEGACY_INSTALLER_URL@, "${version}"@, b)
                } else {
                    crate::foundation::text::replace_all(crate::providers::neoforge::INSTALLER_URL@, "${version}"@, b)
                };
                let file = "neoForge-"@ + b + "-installer.jar"@;
                Ok((url, file, spec_path_join(spec_installer_dir(loader_dir, "neoforged"@), file), old_api))
            },
            None => Err("NeoForge Loader "@ + build + " not found, Available builds: "@ + join(versions, ", "@)),
        }
    }
}

fn filter_legacy(minecraft: &str, legacy: &Vec<String>) -> (r: Vec<String>)
    ensures
        string_views(r@) == string_views(legacy@).filter(|v: Seq<char>| contains(v, minecraft@ + "-"@)),
{
    let mut needle = chars_of(minecraft);
    append(&mut needle, "-");
    let ghost full = string_views(legacy@);
    let ghost pred = |v: Seq<char>| contains(v, minecraft@ + "-"@);
    let mut kept: Vec<String> = Vec::new();
    let mut i: usize = 0;
    while i < legacy.len()
        invariant
            i <= legacy.len(),
            full == string_views(legacy@),
            needle@ == minecraft@ + "-"@,
            pred == (|v: Seq<char>| contains(v, minecraft@ + "-"@)),
            string_views(kept@) == full.subrange(0, i as int).filter(pred),
        decreases legacy.len() - i,
    {
        proof {
            assert(full.subrange(0, i + 1) =~= full.subrange(0, i as int).push(full[i as int]));
            full.subrange(0, i as int).lemma_filter_push(full[i as int], pred);
        }
        if contains_exec(&chars_of(legacy[i].as_str()), &needle) {
            let ghost kk = kept@;
            kept.push(legacy[i].clone());
            assert(string_views(kept@) =~= string_views(kk).push(legacy@[i as int]@));
        }
        i = i + 1;
    }
    assert(full.subrange(0, legacy@.len() as int) =~= full);
    kept
}

fn filter_modern(minecraft: &str, modern: &Vec<String>) -> (r: Vec<String>)
    ensures
        string_views(r@) == string_views(modern@).filter(|v: Seq<char>| spec_minecraft_version_of(v) == Some(minecraft@)),
{
    let ghost full = string_views(modern@);
    let ghost pred = |v: Seq<char>| spec_minecraft_version_of(v) == Some(minecraft@);
    let mut kept: Vec<String> = Vec::new();
    let mut i: usize = 0;
    while i < modern.len()
        invariant
            i <= modern.len(),
            full == string_views(modern@),
            pred == (|v: Seq<char>| spec_minecraft_version_of(v) == Some(minecraft@)),
            string_views(kept@) == full.subrange(0, i as int).filter(pred),
        decreases modern.len() - i,
    {
        proof {
            assert(full.subrange(0, i + 1) =~= full.subrange(0, i as int).push(full[i as int]));
            full.subrange(0, i as int).lemma_filter_push(full[i as int], pred);
        }
        let matches = match minecraft_version_of(modern[i].as_str()) {
            Some(v) => str_eq(v.as_str(), minecraft),
            None => false,
        };
        if matches {
            let ghost kk = kept@;
            kept.push(modern[i].clone());
            assert(string_views(kept@) =~= string_views(kk).push(modern@[i as int]@));
        }
        i = i + 1;
    }
    assert(full.subrange(0, modern@.len() as int) =~= full);
    kept
}

/// The NeoForge installer to download for a game version and build name, or why there is
/// none.
pub fn neoforge_installer(minecraft: &str, build: &str, legacy: &Vec<String>, modern: &Vec<String>, loader_dir: &str) -> (r: Result<InstallerFile, LoaderError>)
    ensures
        match spec_neoforge_installer(minecraft@, build@, string_views(legacy@), string_views(modern@), loader_dir@) {
            Ok((url, file, path, old_api)) => (r matches Ok(f) && f.url@ == url && f.file_name@ == file
                && f.path@ == path && f.md5 is None && f.old_api == old_api),
            Err(m) => (r matches Err(LoaderError::Unsupported(e)) && e@ == m),
        },
{
    let old = filter_legacy(minecraft, legacy);
    let (versions, old_api) = if old.len() > 0 {
        (old, true)
    } else {
        (filter_modern(minecraft, modern), false)
    };
    if versions.len() == 0 {
        let mut m = chars_of("NeoForge doesn't support Minecraft ");
        append(&mut m, minecraft);
        return Err(LoaderError::Unsupported(string_of(&m)));
    }
    let chosen = if needs_promotions(build) {
        versions[versions.len() - 1].clone()
    } else if crate::foundation::text::contains_string(&versions, build) {
        build.to_owned()
    } else {
        let mut m = chars_of("NeoForge Loader ");
        append(&mut m, build);
        append(&mut m, " not found, Available builds: ");
        push_all(&mut m, &join_strings(&versions, ", "));
        return Err(LoaderError::Unsupported(string_of(&m)));
    };
    let url = if old_api {
        crate::providers::neoforge::legacy_installer_url(chosen.as_str())
    } else {
        crate::providers::neoforge::installer_url(chosen.as_str())
    };
    let mut file = chars_of("neoForge-");
    append(&mut file, chosen.as_str());
    append(&mut file, "-installer.jar");
    let file_name = string_of(&file);
    let dir = installer_dir(loader_dir, "neoforged");
    let path = path_join(dir.as_str(), file_name.as_str());
    Ok(InstallerFile { url, file_name, path, md5: None, old_api })
}

/// Where the universal jar of an installer comes from: one archive entry written to a file,
/// every entry whose name contains a filter written into a folder, or nothing.
#[derive(Debug, Clone)]
pub enum UniversalSource {
    Entry { entry: String, target: String, name: String },
    Maven { filter: String, dir: String },
    Nothing,
}

/// The library folder of a Maven path under the loader directory.
pub open spec fn spec_library_dir(loader_dir: Seq<char>, path: Seq<char>) -> Seq<char> {
    spec_path_join(spec_path_join(loader_dir, "libraries"@), path)
}

fn library_dir(loader_dir: &str, path: &str) -> (r: String)
    ensures
        r@ == spec_library_dir(loader_dir@, path@),
{
    let l = path_join(loader_dir, "libraries");
    path_join(l.as_str(), path)
}

/// The library named by a profile's `path`, or by nothing.
pub open spec fn spec_profile_library(install: InstallSection) -> (Seq<char>, Seq<char>, Seq<char>) {
    spec_library_path(
        match install.path {
            Some(p) => p@,
            None => Seq::empty(),
        },
        None,
        None,
    )
}

/// Where a profile's universal jar comes from: with a `filePath`, that entry goes to the
/// library the profile's `path` names; with only a `path`, the entries under `maven/<path>` go
/// to that library's folder.
pub open spec fn spec_universal_source(install: InstallSection, loader_dir: Seq<char>) -> UniversalSourceModel {
    let (path, name, _) = spec_profile_library(install);
    match install.file_path {
        Some(fp) => UniversalSourceModel::Entry {
            entry: fp@,
            target: spec_path_join(spec_library_dir(loader_dir, path), name),
            name,
        },
        None => match install.path {
            Some(_) => UniversalSourceModel::Maven {
                filter: "maven/"@ + path,
                dir: spec_library_dir(loader_dir, path),
            },
            None => UniversalSourceModel::Nothing,
        },
    }
}

/// The content of a `UniversalSource`.
pub enum UniversalSourceModel {
    Entry { entry: Seq<char>, target: Seq<char>, name: Seq<char> },
    Maven { filter: Seq<char>, dir: Seq<char> },
    Nothing,
}

impl View for UniversalSource {
    type V = UniversalSourceModel;

    open spec fn view(&self) -> UniversalSourceModel {
        match self {
            UniversalSource::Entry { entry, target, name } => UniversalSourceModel::Entry {
                entry: entry@,
                target: target@,
                name: name@,
            },
            UniversalSource::Maven { filter, dir } => UniversalSourceModel::Maven {
                filter: filter@,
                dir: dir@,
            },
            UniversalSource::Nothing => UniversalSourceModel::Nothing,
        }
    }
}

/// Where a profile's universal jar comes from. Libraries are filtered later only when it
/// comes from somewhere.
pub fn universal_source(install: &InstallSection, loader_dir: &str) -> (r: UniversalSource)
    ensures
        r@ == spec_universal_source(*install, loader_dir@),
{
    let info = match &install.path {
        Some(p) => library_path(p.as_str(), None, None),
        None => library_path("", None, None),
    };
    proof {
        reveal_strlit("");
    }
    match &install.file_path {
        Some(fp) => {
            let dir = library_dir(loader_dir, info.path.as_str());
            let target = path_join(dir.as_str(), info.name.as_str());
            UniversalSource::Entry { entry: fp.clone(), target, name: info.name }
        },
        None => match &install.path {
            Some(_) => {
                let mut filter = chars_of("maven/");
                append(&mut filter, info.path.as_str());
                UniversalSource::Maven {
                    filter: string_of(&filter),
                    dir: library_dir(loader_dir, info.path.as_str()),
                }
            },
            None => UniversalSource::Nothing,
        },
    }
}

/// Where one archive entry of a Maven folder goes, and its file name.
pub fn maven_entry_target(dir: &str, entry: &String) -> (r: (String, String))
    ensures
        r.1@ == spec_file_part(entry@),
        r.0@ == spec_path_join(dir@, spec_file_part(entry@)),
{
    let name = file_part(entry);
    (path_join(dir, name.as_str()), name)
}

/// The index of the first library, from `i` on, whose name starts with `prefix`.
pub open spec fn spec_first_with_prefix(libraries: Seq<crate::providers::launchermeta::Library>, prefix: Seq<char>, i: int) -> Option<int>
    decreases libraries.len() - i,
{
    if i < 0 || i >= libraries.len() {
        None
    } else if starts_with(libraries[i].name@, prefix) {
        Some(i)
    } else {
        spec_first_with_prefix(libraries, prefix, i + 1)
    }
}

/// Where the client data of a profile with processors goes: the `-clientdata` `.lzma` file of
/// the profile's `path`, or else of the first library with the universal prefix, or else of
/// nothing; and its file name. A profile without processors has none.
pub open spec fn spec_client_data_target(install: InstallSection, prefix: Seq<char>, loader_dir: Seq<char>) -> Option<(Seq<char>, Seq<char>)> {
    if install.processors@.len() == 0 {
        None
    } else {
        let coordinate = match install.path {
            Some(p) => p@,
            None => match spec_first_with_prefix(install.libraries@, prefix, 0) {
                Some(i) => install.libraries@[i].name@,
                None => Seq::empty(),
            },
        };
        let (path, name, _) = spec_library_path(coordinate, Some("-clientdata"@), Some(".lzma"@));
        Some((spec_path_join(spec_library_dir(loader_dir, path), name), name))
    }
}

/// Where the client data of a profile goes, and its file name.
pub fn client_data_target(install: &InstallSection, prefix: &str, loader_dir: &str) -> (r: Option<(String, String)>)
    ensures
        match spec_client_data_target(*install, prefix@, loader_dir@) {
            Some((t, n)) => (r matches Some(p) && p.0@ == t && p.1@ == n),
            None => r is None,
        },
{
    if install.processors.len() == 0 {
        return None;
    }
    let coordinate: String = match &install.path {
        Some(p) => p.clone(),
        None => {
            let pre = chars_of(prefix);
            let mut found: Option<usize> = None;
            let mut i: usize = 0;
            while i < install.libraries.len()
                invariant
                    i <= install.libraries.len(),
                    pre@ == prefix@,
                    found is None ==> spec_first_with_prefix(install.libraries@, prefix@, 0)
                        == spec_first_with_prefix(install.libraries@, prefix@, i as int),
                    found matches Some(k) ==> spec_first_with_prefix(install.libraries@, prefix@, 0)
                        == Some(k as int) && k < install.libraries@.len(),
                decreases install.libraries.len() - i,
            {
                if found.is_none() && starts_with_exec(&chars_of(install.libraries[i].name.as_str()), &pre) {
                    found = Some(i);
                }
                i = i + 1;
            }
            match found {
                Some(k) => install.libraries[k].name.clone(),
                None => "".to_owned(),
            }
        },
    };
    proof {
        reveal_strlit("");
    }
    let info = library_path(coordinate.as_str(), Some("-clientdata"), Some(".lzma"));
    let dir = library_dir(loader_dir, info.path.as_str());
    let target = path_join(dir.as_str(), info.name.as_str());
    Some((target, info.name))
}

/// The libraries of a list whose name no earlier library has: each name kept once, at its
/// first place.
pub open spec fn spec_unique_by_name(libraries: Seq<LibraryModel>) -> Seq<LibraryModel>
    decreases libraries.len(),
{
    if libraries.len() == 0 {
        Seq::empty()
    } else {
        let kept = spec_unique_by_name(libraries.drop_last());
        if exists|j: int| 0 <= j < libraries.len() - 1 && (#[trigger] libraries[j]).name == libraries.last().name {
            kept
        } else {
            kept.push(libraries.last())
        }
    }
}

/// The libraries of the version JSON followed by those of the install profile, each name
/// once, at its first place.
pub fn merge_libraries(json_libraries: &Vec<Library>, profile_libraries: &Vec<Library>) -> (r: Vec<Library>)
    ensures
        spec_library_models(r@) == spec_unique_by_name(
            spec_library_models(json_libraries@) + spec_library_models(profile_libraries@),
        ),
{
    let mut all: Vec<Library> = Vec::new();
    let mut i: usize = 0;
    while i < json_libraries.len()
        invariant
            i <= json_libraries.len(),
            spec_library_models(all@) == spec_library_models(json_libraries@).subrange(0, i as int),
        decreases json_libraries.len() - i,
    {
        let ghost before = all@;
        all.push(json_libraries[i].duplicate());
        assert(spec_library_models(all@) =~= spec_library_models(before).push(json_libraries@[i as int]@));
        i = i + 1;
    }
    let mut j: usize = 0;
    while j < profile_libraries.len()
        invariant
            j <= profile_libraries.len(),
            spec_library_models(all@) == spec_library_models(json_libraries@)
                + spec_library_models(profile_libraries@).subrange(0, j as int),
        decreases profile_libraries.len() - j,
    {
        let ghost before = all@;
        all.push(profile_libraries[j].duplicate());
        assert(spec_library_models(all@) =~= spec_library_models(before).push(profile_libraries@[j as int]@));
        j = j + 1;
    }
    let ghost models = spec_library_models(all@);
    assert(models =~= spec_library_models(json_libraries@) + spec_library_models(profile_libraries@));
    let mut kept: Vec<Library> = Vec::new();
    let mut k: usize = 0;
    while k < all.len()
        invariant
            k <= all.len(),
            models == spec_library_models(all@),
            spec_library_models(kept@) == spec_unique_by_name(models.subrange(0, k as int)),
        decreases all.len() - k,
    {
        let ghost pre = models.subrange(0, k + 1);
        assert(pre.drop_last() =~= models.subrange(0, k as int));
        let mut seen = false;
        let mut m: usize = 0;
        while m < k
            invariant
                m <= k < all.len(),
                models == spec_library_models(all@),
                seen == exists|x: int| 0 <= x < m && (#[trigger] models[x]).name == models[k as int].name,
            decreases k - m,
        {
            assert(models[m as int] == all@[m as int]@);
            assert(models[k as int] == all@[k as int]@);
            if str_eq(all[m].name.as_str(), all[k].name.as_str()) {
                seen = true;
            }
            m = m + 1;
        }
        assert(seen == exists|x: int| 0 <= x < pre.len() - 1 && (#[trigger] pre[x]).name == pre.last().name) by {
            if seen {
                let x = choose|x: int| 0 <= x < k && (#[trigger] models[x]).name == models[k as int].name;
                assert(pre[x] == models[x]);
            }
            if exists|x: int| 0 <= x < pre.len() - 1 && (#[trigger] pre[x]).name == pre.last().name {
                let x = choose|x: int| 0 <= x < pre.len() - 1 && (#[trigger] pre[x]).name == pre.last().name;
                assert(models[x] == pre[x]);
            }
        }
        if !seen {
            let ghost before = kept@;
            kept.push(all[k].duplicate());
            assert(spec_library_models(kept@) =~= spec_library_models(before).push(models[k as int]));
        }
        k = k + 1;
    }
    assert(models.subrange(0, all@.len() as int) =~= models);
    kept
}

/// The name fragments whose libraries the universal jar already provides.
pub open spec fn spec_skip_prefixes(flavor: Flavor) -> (Seq<char>, Seq<char>) {
    match flavor {
        Flavor::Forge => ("net.minecraftforge:forge:"@, "net.minecraftforge:minecraftforge:"@),
        Flavor::NeoForge => ("net.minecraftforge:neoforged:"@, "net.minecraftforge:minecraftforge:"@),
    }
}

/// Whether a library lists an artifact with a URL.
pub open spec fn spec_has_artifact_url(library: LibraryModel) -> bool {
    library.downloads matches Some(d) && (d.artifact matches Some(a) && a.url.len() > 0)
}

/// What to do with one library of an installer: skip it, or fetch it to a file, looking for it
/// on the mirrors under a base path.
#[derive(Debug, Clone)]
pub enum LibraryStep {
    Skip,
    Fetch { file_path: String, base: String, name: String },
}

/// The natives classifier a Forge library names for a platform.
pub open spec fn spec_natives_suffix(library: Library, flavor: Flavor, platform: Platform) -> Option<Seq<char>> {
    match flavor {
        Flavor::Forge => match library.natives {
            Some(n) => match lookup(n@, spec_mojang_name(platform)) {
                Some(v) => Some("-"@ + v@),
                None => None,
            },
            None => None,
        },
        Flavor::NeoForge => None,
    }
}

/// What to do with a library: one the universal jar provides (when `skip_filter` holds, its
/// name contains a skip prefix and it lists no artifact URL) is skipped, as is one the rules
/// leave out (Forge) or one with rules at all (NeoForge). Otherwise it goes to its Maven path
/// under the loader's `libraries`, with a natives classifier for Forge; the mirror base is its
/// folder for natives and its file otherwise.
pub open spec fn spec_library_step(library: Library, flavor: Flavor, skip_filter: bool, platform: Platform, loader_dir: Seq<char>) -> Option<(Seq<char>, Seq<char>, Seq<char>)> {
    let model = library@;
    let (p0, p1) = spec_skip_prefixes(flavor);
    let provided = skip_filter && (contains(model.name, p0) || contains(model.name, p1))
        && !spec_has_artifact_url(model);
    let ruled_out = match flavor {
        Flavor::Forge => spec_skip_library_node(
            match library.rules {
                Some(r) => Some(r@),
                None => None,
            },
            platform,
        ),
        Flavor::NeoForge => library.rules is Some,
    };
    if provided || ruled_out {
        None
    } else {
        let suffix = spec_natives_suffix(library, flavor, platform);
        let (path, name, _) = spec_library_path(model.name, suffix, None);
        let base = if suffix is Some {
            path + "/"@
        } else {
            path + "/"@ + name
        };
        Some((spec_path_join(spec_library_dir(loader_dir, path), name), base, name))
    }
}

fn has_artifact_url(library: &Library) -> (r: bool)
    ensures
        r == spec_has_artifact_url(library@),
{
    match &library.downloads {
        Some(d) => match &d.artifact {
            Some(a) => a.url.as_str().unicode_len() > 0,
            None => false,
        },
        None => false,
    }
}

fn natives_suffix(library: &Library, flavor: Flavor, platform: Platform) -> (r: Option<String>)
    ensures
        opt_string_view(r) == spec_natives_suffix(*library, flavor, platform),
{
    match flavor {
        Flavor::Forge => match &library.natives {
            Some(n) => {
                match key_index(n, platform.mojang_name()) {
                    Some(i) => {
                        let mut s = chars_of("-");
                        append(&mut s, n[i].1.as_str());
                        Some(string_of(&s))
                    },
                    None => None,
                }
            },
            None => None,
        },
        Flavor::NeoForge => None,
    }
}

/// What to do with one library of an installer.
pub fn library_step(library: &Library, flavor: Flavor, skip_filter: bool, platform: Platform, loader_dir: &str) -> (r: LibraryStep)
    ensures
        match spec_library_step(*library, flavor, skip_filter, platform, loader_dir@) {
            Some((f, b, n)) => (r matches LibraryStep::Fetch { file_path, base, name } && file_path@ == f
                && base@ == b && name@ == n),
            None => (r is Skip),
        },
{
    let (p0, p1) = match flavor {
        Flavor::Forge => ("net.minecraftforge:forge:", "net.minecraftforge:minecraftforge:"),
        Flavor::NeoForge => ("net.minecraftforge:neoforged:", "net.minecraftforge:minecraftforge:"),
    };
    let name = chars_of(library.name.as_str());
    if skip_filter && (contains_exec(&name, &chars_of(p0)) || contains_exec(&name, &chars_of(p1)))
        && !has_artifact_url(library) {
        return LibraryStep::Skip;
    }
    let ruled_out = match flavor {
        Flavor::Forge => skip_library_node(
            match &library.rules {
                Some(r) => Some(r.as_slice()),
                None => None,
            },
            platform,
        ),
        Flavor::NeoForge => library.rules.is_some(),
    };
    if ruled_out {
        return LibraryStep::Skip;
    }
    let suffix = natives_suffix(library, flavor, platform);
    let info = match &suffix {
        Some(s) => library_path(library.name.as_str(), Some(s.as_str()), None),
        None => library_path(library.name.as_str(), None, None),
    };
    let dir = library_dir(loader_dir, info.path.as_str());
    let file_path = path_join(dir.as_str(), info.name.as_str());
    let mut base = chars_of(info.path.as_str());
    append(&mut base, "/");
    if suffix.is_none() {
        append(&mut base, info.name.as_str());
    }
    LibraryStep::Fetch { file_path, base: string_of(&base), name: info.name }
}

/// Where a missing library is downloaded from and its size: the mirror that has it, or else
/// the artifact it lists.
pub open spec fn spec_library_source(mirror: Option<(Seq<char>, u64)>, library: LibraryModel) -> Option<(Seq<char>, u64)> {
    match mirror {
        Some(m) => Some(m),
        None => match library.downloads {
            Some(d) => match d.artifact {
                Some(a) => Some((a.url, a.size)),
                None => None,
            },
            None => None,
        },
    }
}

/// Where a missing library is downloaded from, and its size.
pub fn library_source(mirror: Option<(String, u64)>, library: &Library) -> (r: Option<(String, u64)>)
    ensures
        match r {
            Some((u, n)) => spec_library_source(
                match mirror {
                    Some((mu, ms)) => Some((mu@, ms)),
                    None => None,
                },
                library@,
            ) == Some((u@, n)),
            None => spec_library_source(
                match mirror {
                    Some((mu, ms)) => Some((mu@, ms)),
                    None => None,
                },
                library@,
            ) is None,
        },
{
    match mirror {
        Some(m) => Some(m),
        None => match &library.downloads {
            Some(d) => match &d.artifact {
                Some(a) => Some((a.url.clone(), a.size)),
                None => None,
            },
            None => None,
        },
    }
}

/// What a library that cannot be downloaded comes to: for Forge, a message that it was not
/// found, and the install goes on; for NeoForge, the error that ends it.
pub fn missing_library(flavor: Flavor, name: &str) -> (r: Result<String, LoaderError>)
    ensures
        flavor == Flavor::Forge ==> (r matches Ok(m) && m@ == "Library "@ + name@ + " not found"@),
        flavor == Flavor::NeoForge ==> (r matches Err(LoaderError::Invalid(m)) && m@
            == "Impossible to download "@ + name@),
{
    match flavor {
        Flavor::Forge => {
            let mut m = chars_of("Library ");
            append(&mut m, name);
            append(&mut m, " not found");
            Ok(string_of(&m))
        },
        Flavor::NeoForge => {
            let mut m = chars_of("Impossible to download ");
            append(&mut m, name);
            Err(LoaderError::Invalid(string_of(&m)))
        },
    }
}

/// Merging keeps every name once: no two merged libraries share a name, every name of the
/// inputs is among them, and every merged library comes from the inputs.
pub proof fn law_unique_by_name(libraries: Seq<LibraryModel>)
    ensures
        forall|i: int, j: int|
            0 <= i < j < spec_unique_by_name(libraries).len() ==> (#[trigger] spec_unique_by_name(
                libraries,
            )[i]).name != (#[trigger] spec_unique_by_name(libraries)[j]).name,
        forall|k: int|
            0 <= k < libraries.len() ==> exists|i: int|
                0 <= i < spec_unique_by_name(libraries).len() && (#[trigger] spec_unique_by_name(
                    libraries,
                )[i]).name == (#[trigger] libraries[k]).name,
        forall|i: int|
            0 <= i < spec_unique_by_name(libraries).len() ==> libraries.contains(
                #[trigger] spec_unique_by_name(libraries)[i],
            ),
    decreases libraries.len(),
{
    if libraries.len() > 0 {
        let prefix = libraries.drop_last();
        let last = libraries.last();
        law_unique_by_name(prefix);
        let kept = spec_unique_by_name(prefix);
        let u = spec_unique_by_name(libraries);
        assert forall|i: int| 0 <= i < u.len() implies libraries.contains(#[trigger] u[i]) by {
            if i < kept.len() {
                assert(u[i] == kept[i]);
                let x = choose|x: int| 0 <= x < prefix.len() && prefix[x] == kept[i];
                assert(libraries[x] == prefix[x]);
            } else {
                assert(u[i] == last);
                assert(libraries[libraries.len() - 1] == last);
            }
        }
        if exists|j: int| 0 <= j < libraries.len() - 1 && (#[trigger] libraries[j]).name == last.name {
            assert(u == kept);
            assert forall|k: int| 0 <= k < libraries.len() implies exists|i: int|
                0 <= i < u.len() && (#[trigger] u[i]).name == (#[trigger] libraries[k]).name by {
                if k < libraries.len() - 1 {
                    assert(libraries[k] == prefix[k]);
                } else {
                    let j = choose|j: int| 0 <= j < libraries.len() - 1 && (#[trigger] libraries[j]).name == last.name;
                    assert(libraries[j] == prefix[j]);
                }
            }
        } else {
            assert(u == kept.push(last));
            assert forall|i: int, j: int| 0 <= i < j < u.len() implies (#[trigger] u[i]).name
                != (#[trigger] u[j]).name by {
                if j == u.len() - 1 {
                    assert(u[i] == kept[i]);
                    let x = choose|x: int| 0 <= x < prefix.len() && prefix[x] == kept[i];
                    assert(libraries[x] == prefix[x]);
                } else {
                    assert(u[i] == kept[i]);
                    assert(u[j] == kept[j]);
                }
            }
            assert forall|k: int| 0 <= k < libraries.len() implies exists|i: int|
                0 <= i < u.len() && (#[trigger] u[i]).name == (#[trigger] libraries[k]).name by {
                if k < libraries.len() - 1 {
                    assert(libraries[k] == prefix[k]);
                    let i = choose|i: int| 0 <= i < kept.len() && (#[trigger] kept[i]).name == prefix[k].name;
                    assert(u[i] == kept[i]);
                } else {
                    assert(u[u.len() - 1] == last);
                }
            }
        }
    }
}

} // verus!
