pub mod lwjgl;
pub mod patches;

use vstd::prelude::*;

use crate::foundation::maven::{
    spec_directory, spec_file_name, spec_parse_coordinate, MavenCoordinate,
};
use crate::foundation::os::{
    effective_arch, spec_bits, spec_effective_arch, spec_java_runtime_platform, spec_mojang_name, Arch, Platform,
};
use crate::foundation::paths::{
    components, is_absolute, is_component, lemma_join_component, lemma_join_relative, path_join, spec_path_join,
};
use crate::foundation::text::{
    chars_of, ends_with, ends_with_exec, key_index, lemma_key_index_from, lookup, opt_view, replace_all, replace_all_exec, slice, str_eq, string_of, string_views,
};
use crate::network::{
    download_models, DownloadItem, DownloadModel,
};
use crate::providers::launchermeta::{
    Artifact, AssetIndex, JavaRuntimeEntry, JavaRuntimeManifest, Library, VersionJson,
};

verus! {

pub const LABEL_LIBRARIES: &'static str = "Libraries";
pub const LABEL_NATIVE: &'static str = "Native";
pub const LABEL_LOG_CONFIGS: &'static str = "Log_configs";
pub const LABEL_ASSETS: &'static str = "Assets";
pub const LABEL_JAVA: &'static str = "Java";

pub const DEFAULT_JAVA_COMPONENT: &'static str = "jre-legacy";

/// Whether a version uses the legacy asset layout (`legacy` or `pre-1.6` assets).
pub open spec fn spec_is_old(json: VersionJson) -> bool {
    opt_view(json.assets) == Some("legacy"@) || opt_view(json.assets) == Some("pre-1.6"@)
}

/// Whether a version uses the legacy asset layout.
pub fn is_old(json: &VersionJson) -> (r: bool)
    ensures
        r == spec_is_old(*json),
{
    match &json.assets {
        Some(assets) => str_eq(assets.as_str(), "legacy") || str_eq(assets.as_str(), "pre-1.6"),
        None => false,
    }
}

/// The version that was asked for: its id, its manifest, and the manifest as JSON text.
#[derive(Debug, Clone)]
pub struct ResolvedVersion {
    pub id: String,
    pub json: VersionJson,
    pub raw: String,
}

/// Everything a launch needs on disk: files to download, files to write, natives archives,
/// the Java to use or to install, and the asset index.
#[derive(Debug, Clone)]
pub struct GameFiles {
    pub downloads: Vec<DownloadItem>,
    pub content: Vec<ContentFile>,
    pub natives: Vec<String>,
    pub java_executable: Option<String>,
    pub azul: Option<AzulRequest>,
    pub asset_index_id: Option<String>,
    pub legacy_assets: bool,
}

impl Default for GameFiles {
    fn default() -> (r: Self)
        ensures
            r.downloads@.len() == 0,
            r.content@.len() == 0,
            r.natives@.len() == 0,
            r.java_executable is None,
            r.azul is None,
            r.asset_index_id is None,
            !r.legacy_assets,
    {
        Self {
            downloads: Vec::new(),
            content: Vec::new(),
            natives: Vec::new(),
            java_executable: None,
            azul: None,
            asset_index_id: None,
            legacy_assets: false,
        }
    }
}

/// A Java to install from Azul: the major version and the package type.
#[derive(Debug, Clone, PartialEq, Eq)]
pub struct AzulRequest {
    pub major_version: String,
    pub package_type: String,
}

impl AzulRequest {
    /// A request for a major version; the package type is `jre` unless given.
    pub fn new(major_version: String, package_type: Option<String>) -> (r: Self)
        ensures
            r.major_version == major_version,
            match package_type {
                Some(p) => r.package_type == p,
                None => r.package_type@ == "jre"@,
            },
    {
        Self {
            major_version,
            package_type: match package_type {
                Some(p) => p,
                None => "jre".to_owned(),
            },
        }
    }
}

/// A file to write with a content.
#[derive(Debug, Clone, PartialEq, Eq)]
pub struct ContentFile {
    pub path: String,
    pub content: String,
}

/// An entry of a server's custom file list.
#[derive(Debug, Clone)]
pub struct CustomFile {
    pub path: String,
    pub hash: Option<String>,
    pub size: Option<u64>,
    pub url: String,
}

/// Why the files of a version could not be resolved.
#[derive(Debug, Clone, PartialEq, Eq)]
pub enum ResolveError {
    VersionNotFound(String),
    UnsupportedPlatform,
    JavaRuntimeUnavailable { component: String, platform: String },
    JavaExecutableMissing(String),
    MissingClient,
    CustomFiles { url: String, status: u16 },
}

/// Works out the files of a version for a platform and architecture.
#[derive(Debug, Clone, Copy)]
pub struct Resolver {
    platform: Platform,
    arch: Arch,
}

/// What a library contributes: its download and whether it is a natives archive.
pub open spec fn spec_library_item(
    library: Library,
    platform: Platform,
    arch: Arch,
    root: Seq<char>,
) -> Option<(DownloadModel, bool)> {
    let os_name = spec_mojang_name(platform);
    let chosen: Option<(Artifact, bool)> = match library.natives {
        Some(n) => match lookup(n@, os_name) {
            None => None,
            Some(native) => {
                let classifier = replace_all(native@, "${arch}"@, spec_bits(arch));
                match library.downloads {
                    Some(d) => match d.classifiers {
                        Some(c) => match lookup(c@, classifier) {
                            Some(a) => Some((a, true)),
                            None => None,
                        },
                        None => None,
                    },
                    None => None,
                }
            },
        },
        None => {
            let other_system = match library.rules {
                Some(r) => r@.len() > 0 && match r@[0].os {
                    Some(os) => match os.name {
                        Some(name) => name@ != os_name,
                        None => false,
                    },
                    None => false,
                },
                None => false,
            };
            if other_system {
                None
            } else {
                match library.downloads {
                    Some(d) => match d.artifact {
                        Some(a) => Some((a, false)),
                        None => None,
                    },
                    None => None,
                }
            }
        },
    };
    match chosen {
        None => None,
        Some((artifact, native)) => {
            let relative = match artifact.path {
                Some(p) => Some(p@),
                None => match spec_parse_coordinate(library.name@) {
                    Some(c) => Some(spec_directory(c) + "/"@ + spec_file_name(c)),
                    None => None,
                },
            };
            match relative {
                None => None,
                Some(rel) => Some(
                    (
                        DownloadModel {
                            url: artifact.url@,
                            path: spec_path_join(spec_path_join(root, "libraries"@), rel),
                            sha1: Some(artifact.sha1@),
                            size: Some(artifact.size),
                            executable: false,
                            label: if native {
                                LABEL_NATIVE@
                            } else {
                                LABEL_LIBRARIES@
                            },
                        },
                        native,
                    ),
                ),
            }
        },
    }
}

/// The downloads of the first `n` libraries.
pub open spec fn spec_library_downloads(
    libraries: Seq<Library>,
    platform: Platform,
    arch: Arch,
    root: Seq<char>,
    n: int,
) -> Seq<DownloadModel>
    decreases n,
{
    if n <= 0 {
        Seq::empty()
    } else {
        let prev = spec_library_downloads(libraries, platform, arch, root, n - 1);
        match spec_library_item(libraries[n - 1], platform, arch, root) {
            Some((item, _)) => prev.push(item),
            None => prev,
        }
    }
}

/// The natives archives among the first `n` libraries.
pub open spec fn spec_library_natives(
    libraries: Seq<Library>,
    platform: Platform,
    arch: Arch,
    root: Seq<char>,
    n: int,
) -> Seq<Seq<char>>
    decreases n,
{
    if n <= 0 {
        Seq::empty()
    } else {
        let prev = spec_library_natives(libraries, platform, arch, root, n - 1);
        match spec_library_item(libraries[n - 1], platform, arch, root) {
            Some((item, true)) => prev.push(item.path),
            _ => prev,
        }
    }
}

fn artifact_for(library: &Library, platform: Platform, arch: Arch) -> (r: Option<(&Artifact, bool)>)
    ensures
        match r {
            Some((a, native)) => {
                let os_name = spec_mojang_name(platform);
                &&& native == library.natives is Some
                &&& native ==> (library.natives matches Some(n) && lookup(n@, os_name) matches Some(v)
                    && (library.downloads matches Some(d) && (d.classifiers matches Some(c)
                    && lookup(c@, replace_all(v@, "${arch}"@, spec_bits(arch))) == Some(*a))))
                &&& !native ==> !(library.rules matches Some(rs) && rs@.len() > 0 && (rs@[0].os matches Some(os) && (os.name matches Some(name) && name@ != os_name)))
                    && (library.downloads matches Some(d) && d.artifact == Some(*a))
            },
            None => spec_library_item(*library, platform, arch, Seq::empty()) is None,
        },
{
    let os_name = platform.mojang_name();
    match &library.natives {
        Some(n) => {
            let native = match key_index(n, os_name) {
                None => {
                    return None;
                },
                Some(i) => {
                    proof {
                        lemma_key_index_from(n@, os_name@, 0);
                    }
                    &n[i].1
                },
            };
            proof {
                reveal_strlit("${arch}");
            }
            let classifier = string_of(
                &replace_all_exec(&chars_of(native.as_str()), &chars_of("${arch}"), &chars_of(arch.bits())),
            );
            match &library.downloads {
                Some(d) => match &d.classifiers {
                    Some(c) => match key_index(c, classifier.as_str()) {
                        Some(j) => {
                            proof {
                                lemma_key_index_from(c@, classifier@, 0);
                            }
                            Some((&c[j].1, true))
                        },
                        None => None,
                    },
                    None => None,
                },
                None => None,
            }
        },
        None => {
            if let Some(rules) = &library.rules {
                if rules.len() > 0 {
                    if let Some(os) = &rules[0].os {
                        if let Some(name) = &os.name {
                            if !str_eq(name.as_str(), os_name) {
                                return None;
                            }
                        }
                    }
                }
            }
            match &library.downloads {
                Some(d) => match &d.artifact {
                    Some(a) => Some((a, false)),
                    None => None,
                },
                None => None,
            }
        },
    }
}

fn library_item(library: &Library, platform: Platform, arch: Arch, root: &str) -> (r: Option<(DownloadItem, bool)>)
    ensures
        match r {
            Some((item, native)) => spec_library_item(*library, platform, arch, root@) == Some((item@, native)),
            None => spec_library_item(*library, platform, arch, root@) is None,
        },
{
    let (artifact, native) = match artifact_for(library, platform, arch) {
        None => {
            return None;
        },
        Some(found) => found,
    };
    let relative = match &artifact.path {
        Some(p) => p.clone(),
        None => match MavenCoordinate::parse(library.name.as_str()) {
            Ok(coordinate) => coordinate.path(),
            Err(_) => {
                return None;
            },
        },
    };
    let libraries_dir = path_join(root, "libraries");
    let path = path_join(libraries_dir.as_str(), relative.as_str());
    let label = if native {
        LABEL_NATIVE
    } else {
        LABEL_LIBRARIES
    };
    let item = DownloadItem {
        url: artifact.url.clone(),
        path,
        sha1: Some(artifact.sha1.clone()),
        size: Some(artifact.size),
        executable: false,
        label: label.to_owned(),
    };
    Some((item, native))
}

impl Resolver {
    pub closed spec fn platform_value(&self) -> Platform {
        self.platform
    }

    pub closed spec fn arch_value(&self) -> Arch {
        self.arch
    }

    /// A resolver for a platform and architecture.
    pub fn new(platform: Platform, arch: Arch) -> (r: Self)
        ensures
            r.platform_value() == platform,
            r.arch_value() == arch,
    {
        Self { platform, arch }
    }

    /// The resolver for another platform and architecture.
    pub fn with_target(self, platform: Platform, arch: Arch) -> (r: Self)
        ensures
            r.platform_value() == platform,
            r.arch_value() == arch,
    {
        Self { platform, arch }
    }

    /// The resolver for x64 builds on an Apple Silicon Mac when asked to.
    pub fn with_intel_mac(self, enabled: bool) -> (r: Self)
        ensures
            r.platform_value() == self.platform_value(),
            r.arch_value() == spec_effective_arch(self.platform_value(), self.arch_value(), enabled),
    {
        Self { platform: self.platform, arch: effective_arch(self.platform, self.arch, enabled) }
    }

    pub fn platform(&self) -> (r: Platform)
        ensures
            r == self.platform_value(),
    {
        self.platform
    }

    pub fn arch(&self) -> (r: Arch)
        ensures
            r == self.arch_value(),
    {
        self.arch
    }

    /// Adds the downloads of the version's libraries, and the natives archives among them.
    pub fn resolve_libraries(&self, json: &VersionJson, root: &str, files: &mut GameFiles)
        ensures
            download_models(final(files).downloads@) == download_models(old(files).downloads@)
                + spec_library_downloads(json.libraries@, self.platform_value(), self.arch_value(), root@, json.libraries@.len() as int),
            string_views(final(files).natives@) == string_views(old(files).natives@)
                + spec_library_natives(json.libraries@, self.platform_value(), self.arch_value(), root@, json.libraries@.len() as int),
            final(files).content == old(files).content,
            final(files).java_executable == old(files).java_executable,
            final(files).azul == old(files).azul,
            final(files).asset_index_id == old(files).asset_index_id,
            final(files).legacy_assets == old(files).legacy_assets,
    {
        let ghost d0 = download_models(files.downloads@);
        let ghost n0 = string_views(files.natives@);
        let mut i: usize = 0;
        while i < json.libraries.len()
            invariant
                i <= json.libraries.len(),
                download_models(files.downloads@) == d0 + spec_library_downloads(json.libraries@, self.platform, self.arch, root@, i as int),
                string_views(files.natives@) == n0 + spec_library_natives(json.libraries@, self.platform, self.arch, root@, i as int),
                files.content == old(files).content,
                files.java_executable == old(files).java_executable,
                files.azul == old(files).azul,
                files.asset_index_id == old(files).asset_index_id,
                files.legacy_assets == old(files).legacy_assets,
            decreases json.libraries.len() - i,
        {
            match library_item(&json.libraries[i], self.platform, self.arch, root) {
                Some((item, native)) => {
                    let ghost dd = files.downloads@;
                    let ghost nn = files.natives@;
                    if native {
                        files.natives.push(item.path.clone());
                        assert(string_views(files.natives@) =~= string_views(nn).push(item.path@));
                    }
                    files.downloads.push(item);
                    assert(download_models(files.downloads@) =~= download_models(dd).push(item@));
                },
                None => {},
            }
            i = i + 1;
        }
    }
}


// ---------------------------------------------------------------------------------------------
// The client, logging, custom files and assets.

/// `dir/<name><ext>` for a version directory.
pub open spec fn spec_version_file(root: Seq<char>, id: Seq<char>, ext: Seq<char>) -> Seq<char> {
    spec_path_join(spec_path_join(spec_path_join(root, "versions"@), id), id + ext)
}

fn version_file(root: &str, id: &str, ext: &str) -> (r: String)
    ensures
        r@ == spec_version_file(root@, id@, ext@),
{
    let versions = path_join(root, "versions");
    let dir = path_join(versions.as_str(), id);
    let mut name = chars_of(id);
    crate::foundation::text::append(&mut name, ext);
    path_join(dir.as_str(), string_of(&name).as_str())
}

/// `root/assets/log_configs/<id>`.
pub open spec fn spec_log_config_path(root: Seq<char>, id: Seq<char>) -> Seq<char> {
    spec_path_join(spec_path_join(spec_path_join(root, "assets"@), "log_configs"@), id)
}

/// The first `/`-separated segment of a path.
pub open spec fn spec_first_segment(path: Seq<char>) -> Seq<char> {
    crate::foundation::text::split(path, '/')[0]
}

/// Where a custom file goes: under the instance, when there is one.
pub open spec fn spec_custom_relative(path: Seq<char>, instance: Option<Seq<char>>) -> Seq<char> {
    match instance {
        Some(i) => "instances/"@ + i + "/"@ + path,
        None => path,
    }
}

/// The downloads of the first `n` custom files: those with a path.
pub open spec fn spec_custom_downloads(
    items: Seq<CustomFile>,
    instance: Option<Seq<char>>,
    root: Seq<char>,
    n: int,
) -> Seq<DownloadModel>
    decreases n,
{
    if n <= 0 {
        Seq::empty()
    } else {
        let prev = spec_custom_downloads(items, instance, root, n - 1);
        let item = items[n - 1];
        if item.path@.len() == 0 {
            prev
        } else {
            prev.push(
                DownloadModel {
                    url: item.url@,
                    path: spec_path_join(root, spec_custom_relative(item.path@, instance)),
                    sha1: opt_view(item.hash),
                    size: item.size,
                    executable: false,
                    label: spec_first_segment(item.path@),
                },
            )
        }
    }
}

/// Adds the downloads of a server's custom files.
pub fn resolve_custom_files(items: &Vec<CustomFile>, instance: Option<&str>, root: &str, files: &mut GameFiles)
    ensures
        download_models(final(files).downloads@) == download_models(old(files).downloads@)
            + spec_custom_downloads(
            items@,
            match instance {
                Some(i) => Some(i@),
                None => None,
            },
            root@,
            items@.len() as int,
        ),
        final(files).natives == old(files).natives,
        final(files).content == old(files).content,
        final(files).java_executable == old(files).java_executable,
        final(files).azul == old(files).azul,
        final(files).asset_index_id == old(files).asset_index_id,
        final(files).legacy_assets == old(files).legacy_assets,
{
    let ghost inst = match instance {
        Some(i) => Some(i@),
        None => None::<Seq<char>>,
    };
    let ghost d0 = download_models(files.downloads@);
    let mut i: usize = 0;
    while i < items.len()
        invariant
            i <= items.len(),
            inst == match instance {
                Some(i) => Some(i@),
                None => None::<Seq<char>>,
            },
            download_models(files.downloads@) == d0 + spec_custom_downloads(items@, inst, root@, i as int),
            files.natives == old(files).natives,
            files.content == old(files).content,
            files.java_executable == old(files).java_executable,
            files.azul == old(files).azul,
            files.asset_index_id == old(files).asset_index_id,
            files.legacy_assets == old(files).legacy_assets,
        decreases items.len() - i,
    {
        let item = &items[i];
        if item.path.as_str().unicode_len() > 0 {
            let segments = crate::foundation::text::split_chars(&chars_of(item.path.as_str()), '/');
            proof {
                crate::foundation::text::lemma_split_nonempty(item.path@, '/');
            }
            assert(crate::foundation::text::views(segments@)[0] == segments@[0]@);
            let label = string_of(&segments[0]);
            let relative = match instance {
                Some(inst_name) => {
                    let mut r = chars_of("instances/");
                    crate::foundation::text::append(&mut r, inst_name);
                    crate::foundation::text::append(&mut r, "/");
                    crate::foundation::text::append(&mut r, item.path.as_str());
                    string_of(&r)
                },
                None => item.path.clone(),
            };
            let download = DownloadItem {
                url: item.url.clone(),
                path: path_join(root, relative.as_str()),
                sha1: match &item.hash {
                    Some(h) => Some(h.clone()),
                    None => None,
                },
                size: item.size,
                executable: false,
                label,
            };
            let ghost dd = files.downloads@;
            files.downloads.push(download);
            assert(download_models(files.downloads@) =~= download_models(dd).push(download@));
        }
        i = i + 1;
    }
}

/// Where an asset object goes: `objects/<first two hash bytes>/<hash>`.
pub open spec fn spec_object_path(root: Seq<char>, hash: Seq<char>) -> Seq<char> {
    spec_path_join(
        spec_path_join(
            spec_path_join(spec_path_join(root, "assets"@), "objects"@),
            crate::providers::launchermeta::spec_two_byte_prefix(hash),
        ),
        hash,
    )
}

/// The downloads of the first `n` objects of an asset index.
pub open spec fn spec_asset_downloads(
    objects: Seq<(String, crate::providers::launchermeta::AssetObject)>,
    root: Seq<char>,
    n: int,
) -> Seq<DownloadModel>
    decreases n,
{
    if n <= 0 {
        Seq::empty()
    } else {
        let o = objects[n - 1].1;
        spec_asset_downloads(objects, root, n - 1).push(
            DownloadModel {
                url: crate::providers::launchermeta::ASSETS_BASE_URL@ + "/"@
                    + crate::providers::launchermeta::spec_relative_path(o.hash@),
                path: spec_object_path(root, o.hash@),
                sha1: Some(o.hash@),
                size: Some(o.size),
                executable: false,
                label: LABEL_ASSETS@,
            },
        )
    }
}

/// The place of a hash whose first two characters are ASCII: below the root come `assets`,
/// `objects`, those two characters, then the hash.
proof fn lemma_object_path_components(root: Seq<char>, h: Seq<char>)
    requires
        is_component(h),
        h.len() >= 2,
        (h[0] as u32) < 0x80,
        (h[1] as u32) < 0x80,
    ensures
        components(spec_object_path(root, h)) == components(root) + seq![
            "assets"@,
            "objects"@,
            h.subrange(0, 2),
            h,
        ],
{
    reveal_strlit("assets");
    reveal_strlit("objects");
    reveal_strlit(".");
    let p = h.subrange(0, 2);
    assert(crate::providers::launchermeta::spec_two_byte_prefix(h) == p);
    assert(is_component("assets"@)) by {
        assert("assets"@.len() != "."@.len());
    }
    assert(is_component("objects"@)) by {
        assert("objects"@.len() != "."@.len());
    }
    assert(is_component(p)) by {
        assert(p.len() != "."@.len());
        if p.contains('/') {
            let k = choose|k: int| 0 <= k < p.len() && p[k] == '/';
            assert(h[k] == '/');
        }
    }
    let a = spec_path_join(root, "assets"@);
    let o = spec_path_join(a, "objects"@);
    let d = spec_path_join(o, p);
    lemma_join_component(root, "assets"@);
    lemma_join_component(a, "objects"@);
    lemma_join_component(o, p);
    lemma_join_component(d, h);
    assert(components(root).push("assets"@).push("objects"@).push(p).push(h) =~= components(root)
        + seq!["assets"@, "objects"@, p, h]);
}

/// Every object of an asset index is downloaded, in order, checked against its hash and size,
/// to `root/assets/objects/<first two characters of the hash>/<hash>` (stated for hashes
/// whose first two characters are ASCII, as hexadecimal hashes are).
pub proof fn law_asset_objects_go_under_their_prefix(
    objects: Seq<(String, crate::providers::launchermeta::AssetObject)>,
    root: Seq<char>,
    n: int,
)
    requires
        0 <= n <= objects.len(),
    ensures
        spec_asset_downloads(objects, root, n).len() == n,
        forall|k: int|
            0 <= k < n ==> {
                let h = objects[k].1.hash@;
                let d = #[trigger] spec_asset_downloads(objects, root, n)[k];
                &&& d.sha1 == Some(h)
                &&& d.size == Some(objects[k].1.size)
                &&& !d.executable
                &&& (is_component(h) && h.len() >= 2 && (h[0] as u32) < 0x80 && (h[1] as u32) < 0x80)
                    ==> components(d.path) == components(root) + seq![
                    "assets"@,
                    "objects"@,
                    h.subrange(0, 2),
                    h,
                ] && d.url == crate::providers::launchermeta::ASSETS_BASE_URL@ + "/"@ + h.subrange(0, 2)
                    + "/"@ + h
            },
    decreases n,
{
    if n > 0 {
        law_asset_objects_go_under_their_prefix(objects, root, n - 1);
        let prev = spec_asset_downloads(objects, root, n - 1);
        let all = spec_asset_downloads(objects, root, n);
        assert forall|k: int| 0 <= k < n implies {
            let h = objects[k].1.hash@;
            let d = #[trigger] spec_asset_downloads(objects, root, n)[k];
            &&& d.sha1 == Some(h)
            &&& d.size == Some(objects[k].1.size)
            &&& !d.executable
            &&& (is_component(h) && h.len() >= 2 && (h[0] as u32) < 0x80 && (h[1] as u32) < 0x80)
                ==> components(d.path) == components(root) + seq![
                "assets"@,
                "objects"@,
                h.subrange(0, 2),
                h,
            ] && d.url == crate::providers::launchermeta::ASSETS_BASE_URL@ + "/"@ + h.subrange(0, 2)
                + "/"@ + h
        } by {
            let h = objects[k].1.hash@;
            if k < n - 1 {
                assert(all[k] == prev[k]);
            } else {
                if is_component(h) && h.len() >= 2 && (h[0] as u32) < 0x80 && (h[1] as u32) < 0x80 {
                    lemma_object_path_components(root, h);
                    assert(crate::providers::launchermeta::spec_two_byte_prefix(h) == h.subrange(0, 2));
                }
            }
        }
    }
}

/// The downloads of fewer runtime files are the start of the downloads of more.
proof fn lemma_runtime_downloads_prefix(
    files: Seq<(String, crate::providers::launchermeta::JavaRuntimeFile)>,
    prefix: Seq<char>,
    dir: Seq<char>,
    m: int,
    n: int,
)
    requires
        0 <= m <= n <= files.len(),
    ensures
        spec_runtime_downloads(files, prefix, dir, m).len() <= spec_runtime_downloads(files, prefix, dir, n).len(),
        forall|i: int| 0 <= i < spec_runtime_downloads(files, prefix, dir, m).len()
            ==> #[trigger] spec_runtime_downloads(files, prefix, dir, n)[i] == spec_runtime_downloads(files, prefix, dir, m)[i],
    decreases n - m,
{
    if m < n {
        lemma_runtime_downloads_prefix(files, prefix, dir, m, n - 1);
    }
}

/// Each plain runtime file with a download is downloaded, in manifest order, with its URL,
/// hash and size, with the executable flag the manifest gives it, and to the runtime
/// directory followed by the file's path after the prefix.
pub proof fn law_runtime_downloads_keep_the_files(
    files: Seq<(String, crate::providers::launchermeta::JavaRuntimeFile)>,
    prefix: Seq<char>,
    dir: Seq<char>,
    n: int,
)
    requires
        0 <= n <= files.len(),
    ensures
        spec_runtime_downloads(files, prefix, dir, n).len() <= n,
        forall|k: int|
            0 <= k < n && (#[trigger] files[k]).1.kind@ == "file"@ && files[k].1.downloads is Some ==> {
                let i = spec_runtime_downloads(files, prefix, dir, k).len() as int;
                let d = spec_runtime_downloads(files, prefix, dir, n)[i];
                let raw = files[k].1.downloads.unwrap().raw;
                &&& i < spec_runtime_downloads(files, prefix, dir, n).len()
                &&& d.executable == files[k].1.executable
                &&& d.url == raw.url@
                &&& d.sha1 == Some(raw.sha1@)
                &&& d.size == Some(raw.size)
                &&& (crate::foundation::text::starts_with(files[k].0@, prefix) && !is_absolute(
                    files[k].0@.skip(prefix.len() as int),
                )) ==> components(d.path) == components(dir) + components(
                    files[k].0@.skip(prefix.len() as int),
                )
            },
    decreases n,
{
    if n > 0 {
        law_runtime_downloads_keep_the_files(files, prefix, dir, n - 1);
        assert forall|k: int|
            0 <= k < n && (#[trigger] files[k]).1.kind@ == "file"@ && files[k].1.downloads is Some implies {
                let i = spec_runtime_downloads(files, prefix, dir, k).len() as int;
                let d = spec_runtime_downloads(files, prefix, dir, n)[i];
                let raw = files[k].1.downloads.unwrap().raw;
                &&& i < spec_runtime_downloads(files, prefix, dir, n).len()
                &&& d.executable == files[k].1.executable
                &&& d.url == raw.url@
                &&& d.sha1 == Some(raw.sha1@)
                &&& d.size == Some(raw.size)
                &&& (crate::foundation::text::starts_with(files[k].0@, prefix) && !is_absolute(
                    files[k].0@.skip(prefix.len() as int),
                )) ==> components(d.path) == components(dir) + components(
                    files[k].0@.skip(prefix.len() as int),
                )
            } by {
            lemma_runtime_downloads_prefix(files, prefix, dir, k + 1, n);
            let i = spec_runtime_downloads(files, prefix, dir, k).len() as int;
            assert(spec_runtime_downloads(files, prefix, dir, k + 1)[i] == spec_runtime_downloads(files, prefix, dir, n)[i]);
            if crate::foundation::text::starts_with(files[k].0@, prefix) && !is_absolute(
                files[k].0@.skip(prefix.len() as int),
            ) {
                lemma_join_relative(dir, files[k].0@.skip(prefix.len() as int));
            }
        }
    }
}

/// `root/assets/indexes/<id>.json`.
pub open spec fn spec_index_path(root: Seq<char>, id: Seq<char>) -> Seq<char> {
    spec_path_join(spec_path_join(spec_path_join(root, "assets"@), "indexes"@), id + ".json"@)
}

impl Resolver {
    /// Adds the client jar download and the manifest file; fails when the manifest has no
    /// client download.
    pub fn resolve_client(&self, version: &ResolvedVersion, root: &str, files: &mut GameFiles) -> (r: Result<(), ResolveError>)
        ensures
            match lookup(version.json.downloads@, "client"@) {
                None => r == Err::<(), ResolveError>(ResolveError::MissingClient) && *final(files) == *old(files),
                Some(client) => {
                    &&& r is Ok
                    &&& download_models(final(files).downloads@) == download_models(old(files).downloads@).push(
                        DownloadModel {
                            url: client.url@,
                            path: spec_version_file(root@, version.id@, ".jar"@),
                            sha1: Some(client.sha1@),
                            size: Some(client.size),
                            executable: false,
                            label: LABEL_LIBRARIES@,
                        },
                    )
                    &&& final(files).content@ == old(files).content@.push(
                        ContentFile { path: final(files).content@.last().path, content: final(files).content@.last().content },
                    )
                    &&& final(files).content@.last().path@ == spec_version_file(root@, version.id@, ".json"@)
                    &&& final(files).content@.last().content@ == version.raw@
                    &&& final(files).natives == old(files).natives
                    &&& final(files).java_executable == old(files).java_executable
                    &&& final(files).azul == old(files).azul
                    &&& final(files).asset_index_id == old(files).asset_index_id
                    &&& final(files).legacy_assets == old(files).legacy_assets
                },
            },
    {
        let client = match key_index(&version.json.downloads, "client") {
            None => {
                return Err(ResolveError::MissingClient);
            },
            Some(i) => {
                proof {
                    lemma_key_index_from(version.json.downloads@, "client"@, 0);
                }
                &version.json.downloads[i].1
            },
        };
        let item = DownloadItem {
            url: client.url.clone(),
            path: version_file(root, version.id.as_str(), ".jar"),
            sha1: Some(client.sha1.clone()),
            size: Some(client.size),
            executable: false,
            label: LABEL_LIBRARIES.to_owned(),
        };
        let ghost dd = files.downloads@;
        files.downloads.push(item);
        assert(download_models(files.downloads@) =~= download_models(dd).push(item@));
        files.content.push(ContentFile { path: version_file(root, version.id.as_str(), ".json"), content: version.raw.clone() });
        Ok(())
    }

    /// Adds the logging configuration download, when the manifest has one.
    pub fn resolve_logging(&self, json: &VersionJson, root: &str, files: &mut GameFiles)
        ensures
            match json.logging {
                Some(l) => match l.client {
                    Some(c) => download_models(final(files).downloads@) == download_models(old(files).downloads@).push(
                        DownloadModel {
                            url: c.file.url@,
                            path: spec_log_config_path(root@, c.file.id@),
                            sha1: Some(c.file.sha1@),
                            size: Some(c.file.size),
                            executable: false,
                            label: LABEL_LOG_CONFIGS@,
                        },
                    ),
                    None => final(files).downloads == old(files).downloads,
                },
                None => final(files).downloads == old(files).downloads,
            },
            final(files).natives == old(files).natives,
            final(files).content == old(files).content,
            final(files).java_executable == old(files).java_executable,
            final(files).azul == old(files).azul,
            final(files).asset_index_id == old(files).asset_index_id,
            final(files).legacy_assets == old(files).legacy_assets,
    {
        let client = match &json.logging {
            Some(l) => match &l.client {
                Some(c) => c,
                None => {
                    return;
                },
            },
            None => {
                return;
            },
        };
        let assets = path_join(root, "assets");
        let configs = path_join(assets.as_str(), "log_configs");
        let item = DownloadItem {
            url: client.file.url.clone(),
            path: path_join(configs.as_str(), client.file.id.as_str()),
            sha1: Some(client.file.sha1.clone()),
            size: Some(client.file.size),
            executable: false,
            label: LABEL_LOG_CONFIGS.to_owned(),
        };
        let ghost dd = files.downloads@;
        files.downloads.push(item);
        assert(download_models(files.downloads@) =~= download_models(dd).push(item@));
    }

    /// Adds what an asset index brings, once it is fetched: the index file, its id, whether
    /// the legacy layout is used, and a download per object.
    pub fn resolve_assets(&self, json: &VersionJson, index: &AssetIndex, raw: String, root: &str, files: &mut GameFiles)
        requires
            forall|k: int| 0 <= k < index.objects@.len()
                ==> crate::providers::launchermeta::spec_two_byte_prefix_ok(#[trigger] index.objects@[k].1.hash@),
        ensures
            match json.asset_index {
                None => *final(files) == *old(files),
                Some(index_ref) => {
                    &&& download_models(final(files).downloads@) == download_models(old(files).downloads@)
                        + spec_asset_downloads(index.objects@, root@, index.objects@.len() as int)
                    &&& final(files).content@.len() == old(files).content@.len() + 1
                    &&& forall|k: int| 0 <= k < old(files).content@.len() ==> final(files).content@[k] == old(files).content@[k]
                    &&& final(files).content@.last().path@ == spec_index_path(root@, index_ref.id@)
                    &&& final(files).content@.last().content == raw
                    &&& final(files).asset_index_id == Some(index_ref.id)
                    &&& final(files).legacy_assets == spec_is_old(*json)
                    &&& final(files).natives == old(files).natives
                    &&& final(files).java_executable == old(files).java_executable
                    &&& final(files).azul == old(files).azul
                },
            },
    {
        let index_ref = match &json.asset_index {
            None => {
                return;
            },
            Some(r) => r,
        };
        let assets = path_join(root, "assets");
        let indexes = path_join(assets.as_str(), "indexes");
        let mut name = chars_of(index_ref.id.as_str());
        crate::foundation::text::append(&mut name, ".json");
        files.content.push(ContentFile { path: path_join(indexes.as_str(), string_of(&name).as_str()), content: raw });
        files.asset_index_id = Some(index_ref.id.clone());
        files.legacy_assets = is_old(json);
        let objects_dir = path_join(assets.as_str(), "objects");
        let ghost d0 = download_models(files.downloads@);
        let ghost c1 = files.content@;
        let mut i: usize = 0;
        while i < index.objects.len()
            invariant
                i <= index.objects.len(),
                forall|k: int| 0 <= k < index.objects@.len()
                    ==> crate::providers::launchermeta::spec_two_byte_prefix_ok(#[trigger] index.objects@[k].1.hash@),
                objects_dir@ == spec_path_join(spec_path_join(root@, "assets"@), "objects"@),
                download_models(files.downloads@) == d0 + spec_asset_downloads(index.objects@, root@, i as int),
                files.content@ == c1,
                files.asset_index_id == Some(index_ref.id),
                files.legacy_assets == spec_is_old(*json),
                files.natives == old(files).natives,
                files.java_executable == old(files).java_executable,
                files.azul == old(files).azul,
            decreases index.objects.len() - i,
        {
            let object = &index.objects[i].1;
            assert(crate::providers::launchermeta::spec_two_byte_prefix_ok(index.objects@[i as int].1.hash@));
            let h = chars_of(object.hash.as_str());
            let first = h[0];
            let mut prefix: Vec<char> = Vec::new();
            prefix.push(first);
            if !((first as u32) >= 0x80 && (first as u32) < 0x800) {
                prefix.push(h[1]);
            }
            assert(prefix@ =~= crate::providers::launchermeta::spec_two_byte_prefix(object.hash@));
            let dir = path_join(objects_dir.as_str(), string_of(&prefix).as_str());
            let item = DownloadItem {
                url: object.url(),
                path: path_join(dir.as_str(), object.hash.as_str()),
                sha1: Some(object.hash.clone()),
                size: Some(object.size),
                executable: false,
                label: LABEL_ASSETS.to_owned(),
            };
            let ghost dd = files.downloads@;
            files.downloads.push(item);
            assert(download_models(files.downloads@) =~= download_models(dd).push(item@));
            i = i + 1;
        }
    }
}


// ---------------------------------------------------------------------------------------------
// Java.

/// The Java runtime component a version asks for, `jre-legacy` when it names none.
pub open spec fn spec_java_component(json: VersionJson) -> Seq<char> {
    match json.java_version {
        Some(j) => j.component@,
        None => DEFAULT_JAVA_COMPONENT@,
    }
}

/// The Java runtime component a version asks for.
pub fn java_component(json: &VersionJson) -> (r: String)
    ensures
        r@ == spec_java_component(*json),
{
    match &json.java_version {
        Some(j) => j.component.clone(),
        None => DEFAULT_JAVA_COMPONENT.to_owned(),
    }
}

/// The first runtime the index offers for a platform key and component.
pub open spec fn spec_runtime_entry(
    index: Seq<(String, Vec<(String, Vec<JavaRuntimeEntry>)>)>,
    platform_key: Seq<char>,
    component: Seq<char>,
) -> Option<JavaRuntimeEntry> {
    match lookup(index, platform_key) {
        None => None,
        Some(components) => match lookup(components@, component) {
            None => None,
            Some(entries) => if entries@.len() > 0 {
                Some(entries@[0])
            } else {
                None
            },
        },
    }
}

/// The first runtime the index offers for a platform key and component; an error that names
/// both when there is none.
pub fn runtime_entry<'b>(
    index: &'b Vec<(String, Vec<(String, Vec<JavaRuntimeEntry>)>)>,
    platform_key: &str,
    component: &str,
) -> (r: Result<&'b JavaRuntimeEntry, ResolveError>)
    ensures
        match spec_runtime_entry(index@, platform_key@, component@) {
            Some(e) => r == Ok::<&JavaRuntimeEntry, ResolveError>(&e),
            None => r matches Err(ResolveError::JavaRuntimeUnavailable { component: c, platform: p })
                && c@ == component@ && p@ == platform_key@,
        },
{
    let missing = ResolveError::JavaRuntimeUnavailable {
        component: component.to_owned(),
        platform: platform_key.to_owned(),
    };
    let components = match key_index(index, platform_key) {
        None => {
            return Err(missing);
        },
        Some(i) => {
            proof {
                lemma_key_index_from(index@, platform_key@, 0);
            }
            &index[i].1
        },
    };
    let entries = match key_index(components, component) {
        None => {
            return Err(missing);
        },
        Some(j) => {
            proof {
                lemma_key_index_from(components@, component@, 0);
            }
            &components[j].1
        },
    };
    if entries.len() > 0 {
        Ok(&entries[0])
    } else {
        Err(missing)
    }
}

/// The index of the shortest key that ends with `suffix` among the first `n` files, the
/// earliest among equals.
pub open spec fn spec_shortest_key(files: Seq<(String, crate::providers::launchermeta::JavaRuntimeFile)>, suffix: Seq<char>, n: int) -> Option<int>
    decreases n,
{
    if n <= 0 {
        None
    } else {
        let prev = spec_shortest_key(files, suffix, n - 1);
        if ends_with(files[n - 1].0@, suffix) {
            match prev {
                Some(j) => if files[n - 1].0@.len() < files[j].0@.len() {
                    Some(n - 1)
                } else {
                    Some(j)
                },
                None => Some(n - 1),
            }
        } else {
            prev
        }
    }
}

proof fn lemma_shortest_key(files: Seq<(String, crate::providers::launchermeta::JavaRuntimeFile)>, suffix: Seq<char>, n: int)
    requires
        0 <= n <= files.len(),
    ensures
        spec_shortest_key(files, suffix, n) matches Some(j) ==> 0 <= j < n && ends_with(files[j].0@, suffix),
    decreases n,
{
    if n > 0 {
        lemma_shortest_key(files, suffix, n - 1);
    }
}

/// `s` without the prefix `p` when it starts with it.
pub open spec fn spec_strip_prefix(s: Seq<char>, p: Seq<char>) -> Seq<char> {
    if crate::foundation::text::starts_with(s, p) {
        s.skip(p.len() as int)
    } else {
        s
    }
}

/// The downloads of the first `n` files of a runtime: the plain files that have downloads,
/// under the runtime directory, their paths without the prefix before the executable.
pub open spec fn spec_runtime_downloads(
    files: Seq<(String, crate::providers::launchermeta::JavaRuntimeFile)>,
    prefix: Seq<char>,
    runtime_dir: Seq<char>,
    n: int,
) -> Seq<DownloadModel>
    decreases n,
{
    if n <= 0 {
        Seq::empty()
    } else {
        let prev = spec_runtime_downloads(files, prefix, runtime_dir, n - 1);
        let (relative, file) = files[n - 1];
        if file.kind@ != "file"@ {
            prev
        } else {
            match file.downloads {
                None => prev,
                Some(d) => prev.push(
                    DownloadModel {
                        url: d.raw.url@,
                        path: spec_path_join(runtime_dir, spec_strip_prefix(relative@, prefix)),
                        sha1: Some(d.raw.sha1@),
                        size: Some(d.raw.size),
                        executable: file.executable,
                        label: LABEL_JAVA@,
                    },
                ),
            }
        }
    }
}

/// `root/runtime/<component>`.
pub open spec fn spec_runtime_dir(root: Seq<char>, component: Seq<char>) -> Seq<char> {
    spec_path_join(spec_path_join(root, "runtime"@), component)
}

/// How a launch gets its Java: the path the options give, an Azul version the options force,
/// or Mojang's runtime for the version.
#[derive(Debug, Clone)]
pub enum JavaSource {
    Given,
    Forced(AzulRequest),
    Mojang,
}

impl Resolver {
    /// The key of Mojang's runtime index for the platform and architecture.
    pub fn java_platform_key(&self) -> (r: Result<&'static str, ResolveError>)
        ensures
            match spec_java_runtime_platform(self.platform_value(), self.arch_value()) {
                Some(k) => r matches Ok(s) && s@ == k,
                None => r == Err::<&str, ResolveError>(ResolveError::UnsupportedPlatform),
            },
    {
        match crate::foundation::os::java_runtime_platform(self.platform, self.arch) {
            Some(k) => Ok(k),
            None => Err(ResolveError::UnsupportedPlatform),
        }
    }

    /// Adds the downloads of a runtime, once its manifest is fetched, and the executable;
    /// fails when no file is the platform's Java executable.
    pub fn resolve_java_files(&self, manifest: &JavaRuntimeManifest, component: &str, root: &str, files: &mut GameFiles) -> (r: Result<(), ResolveError>)
        ensures
            ({
                let suffix = if self.platform_value() == Platform::Windows {
                    "bin/javaw.exe"@
                } else {
                    "bin/java"@
                };
                match spec_shortest_key(manifest.files@, suffix, manifest.files@.len() as int) {
                    None => r matches Err(ResolveError::JavaExecutableMissing(c)) && c@ == component@
                        && *final(files) == *old(files),
                    Some(j) => {
                        let key = manifest.files@[j].0@;
                        let prefix = key.subrange(0, key.len() - suffix.len());
                        let dir = spec_runtime_dir(root@, component@);
                        &&& r is Ok
                        &&& download_models(final(files).downloads@) == download_models(old(files).downloads@)
                            + spec_runtime_downloads(manifest.files@, prefix, dir, manifest.files@.len() as int)
                        &&& opt_view(final(files).java_executable) == Some(spec_path_join(dir, suffix))
                        &&& final(files).natives == old(files).natives
                        &&& final(files).content == old(files).content
                        &&& final(files).azul == old(files).azul
                        &&& final(files).asset_index_id == old(files).asset_index_id
                        &&& final(files).legacy_assets == old(files).legacy_assets
                    },
                }
            }),
    {
        let suffix_str = self.platform.java_executable();
        let suffix = chars_of(suffix_str);
        let mut best: Option<usize> = None;
        let mut i: usize = 0;
        while i < manifest.files.len()
            invariant
                i <= manifest.files.len(),
                suffix@ == suffix_str@,
                best == match spec_shortest_key(manifest.files@, suffix@, i as int) {
                    Some(j) => Some(j as usize),
                    None => None::<usize>,
                },
            decreases manifest.files.len() - i,
        {
            proof {
                lemma_shortest_key(manifest.files@, suffix@, i as int);
            }
            let key = chars_of(manifest.files[i].0.as_str());
            if ends_with_exec(&key, &suffix) {
                best = match best {
                    Some(j) => if manifest.files[i].0.as_str().unicode_len() < manifest.files[j].0.as_str().unicode_len() {
                        Some(i)
                    } else {
                        Some(j)
                    },
                    None => Some(i),
                };
            }
            i = i + 1;
        }
        proof {
            lemma_shortest_key(manifest.files@, suffix@, manifest.files@.len() as int);
        }
        let chosen = match best {
            None => {
                return Err(ResolveError::JavaExecutableMissing(component.to_owned()));
            },
            Some(j) => j,
        };
        let key = chars_of(manifest.files[chosen].0.as_str());
        let prefix = slice(&key, 0, key.len() - suffix.len());
        let runtime = path_join(root, "runtime");
        let runtime_dir = path_join(runtime.as_str(), component);
        let ghost d0 = download_models(files.downloads@);
        let mut k: usize = 0;
        while k < manifest.files.len()
            invariant
                k <= manifest.files.len(),
                download_models(files.downloads@) == d0 + spec_runtime_downloads(manifest.files@, prefix@, runtime_dir@, k as int),
                files.natives == old(files).natives,
                files.content == old(files).content,
                files.azul == old(files).azul,
                files.asset_index_id == old(files).asset_index_id,
                files.legacy_assets == old(files).legacy_assets,
                files.java_executable == old(files).java_executable,
            decreases manifest.files.len() - k,
        {
            let (relative, file) = (&manifest.files[k].0, &manifest.files[k].1);
            if str_eq(file.kind.as_str(), "file") {
                if let Some(d) = &file.downloads {
                    let rel = chars_of(relative.as_str());
                    let stripped = if crate::foundation::text::starts_with_exec(&rel, &prefix) {
                        slice(&rel, prefix.len(), rel.len())
                    } else {
                        rel
                    };
                    proof {
                        assert(rel@.skip(prefix@.len() as int) =~= rel@.subrange(prefix@.len() as int, rel@.len() as int));
                    }
                    let item = DownloadItem {
                        url: d.raw.url.clone(),
                        path: path_join(runtime_dir.as_str(), string_of(&stripped).as_str()),
                        sha1: Some(d.raw.sha1.clone()),
                        size: Some(d.raw.size),
                        executable: file.executable,
                        label: LABEL_JAVA.to_owned(),
                    };
                    let ghost dd = files.downloads@;
                    files.downloads.push(item);
                    assert(download_models(files.downloads@) =~= download_models(dd).push(item@));
                }
            }
            k = k + 1;
        }
        files.java_executable = Some(path_join(runtime_dir.as_str(), suffix_str));
        Ok(())
    }
}

/// Whether a failure to find Mojang's runtime is answered by installing Java from Azul.
pub open spec fn spec_falls_back(error: ResolveError) -> bool {
    match error {
        ResolveError::UnsupportedPlatform => true,
        ResolveError::JavaRuntimeUnavailable { .. } => true,
        ResolveError::JavaExecutableMissing(_) => true,
        _ => false,
    }
}

/// Whether a failure to find Mojang's runtime is answered by installing Java from Azul.
pub fn falls_back_to_azul(error: &ResolveError) -> (r: bool)
    ensures
        r == spec_falls_back(*error),
{
    match error {
        ResolveError::UnsupportedPlatform => true,
        ResolveError::JavaRuntimeUnavailable { .. } => true,
        ResolveError::JavaExecutableMissing(_) => true,
        _ => false,
    }
}

/// The downloads that are not part of a Java runtime.
pub open spec fn spec_without_java(items: Seq<DownloadModel>) -> Seq<DownloadModel>
    decreases items.len(),
{
    if items.len() == 0 {
        Seq::empty()
    } else {
        let prev = spec_without_java(items.drop_last());
        if items.last().label == LABEL_JAVA@ {
            prev
        } else {
            prev.push(items.last())
        }
    }
}

/// Gives up Mojang's runtime for Azul: no executable, no runtime downloads, and a request for
/// the version's Java major version (8 when it names none).
pub fn fall_back_to_azul(files: &mut GameFiles, json: &VersionJson, package_type: Option<String>)
    ensures
        final(files).java_executable is None,
        download_models(final(files).downloads@) == spec_without_java(download_models(old(files).downloads@)),
        final(files).azul matches Some(a) && a.major_version@ == (match json.java_version {
            Some(j) => crate::foundation::text::decimal(j.major_version as nat),
            None => "8"@,
        }) && match package_type {
            Some(p) => a.package_type == p,
            None => a.package_type@ == "jre"@,
        },
        final(files).natives == old(files).natives,
        final(files).content == old(files).content,
        final(files).asset_index_id == old(files).asset_index_id,
        final(files).legacy_assets == old(files).legacy_assets,
{
    files.java_executable = None;
    let mut kept: Vec<DownloadItem> = Vec::new();
    let mut i: usize = 0;
    while i < files.downloads.len()
        invariant
            i <= files.downloads.len(),
            download_models(kept@) == spec_without_java(download_models(files.downloads@).subrange(0, i as int)),
        decreases files.downloads.len() - i,
    {
        let ghost pre = download_models(files.downloads@).subrange(0, i + 1);
        assert(pre.drop_last() =~= download_models(files.downloads@).subrange(0, i as int));
        if !str_eq(files.downloads[i].label.as_str(), LABEL_JAVA) {
            let ghost kk = kept@;
            kept.push(files.downloads[i].duplicate());
            assert(download_models(kept@) =~= download_models(kk).push(files.downloads@[i as int]@));
        }
        i = i + 1;
    }
    assert(download_models(files.downloads@).subrange(0, files.downloads@.len() as int) =~= download_models(files.downloads@));
    files.downloads = kept;
    let major = match &json.java_version {
        Some(j) => string_of(&crate::foundation::text::decimal_exec(j.major_version as u64)),
        None => "8".to_owned(),
    };
    files.azul = Some(AzulRequest::new(major, package_type));
}

/// Where a launch's Java comes from.
pub fn java_source(options: &crate::foundation::options::LaunchOptions) -> (r: JavaSource)
    ensures
        options.java.path is Some ==> r is Given,
        options.java.path is None ==> match options.java.version {
            Some(v) => r matches JavaSource::Forced(a) && a.major_version == v && match options.java.kind {
                Some(k) => a.package_type == k,
                None => a.package_type@ == "jre"@,
            },
            None => r is Mojang,
        },
{
    if options.java.path.is_some() {
        return JavaSource::Given;
    }
    match &options.java.version {
        Some(forced) => JavaSource::Forced(AzulRequest::new(forced.clone(), options.java.kind.clone())),
        None => JavaSource::Mojang,
    }
}


impl Resolver {
    /// Whether the version's LWJGL libraries are swapped for ARM builds: on Linux ARM.
    pub fn patches_lwjgl(&self) -> (r: bool)
        ensures
            r == (self.platform_value() == Platform::Linux && (self.arch_value() == Arch::Arm
                || self.arch_value() == Arch::Arm64)),
    {
        self.platform == Platform::Linux && (self.arch == Arch::Arm || self.arch == Arch::Arm64)
    }
}

/// The manifest entry of a requested version (aliases resolved), or the error that names the
/// id that was not found.
pub fn find_version<'b>(manifest: &'b crate::providers::launchermeta::VersionManifest, requested: &str) -> (r: Result<(String, &'b crate::providers::launchermeta::VersionEntry), ResolveError>)
    ensures
        ({
            let id = crate::providers::launchermeta::spec_resolve_id(manifest.latest, requested@);
            match crate::providers::launchermeta::spec_entry_index(manifest.versions@, id, 0) {
                Some(k) => r matches Ok((i, e)) && i@ == id && *e == manifest.versions@[k],
                None => r matches Err(ResolveError::VersionNotFound(i)) && i@ == id,
            }
        }),
{
    let id = manifest.resolve_id(requested).to_owned();
    match manifest.find(id.as_str()) {
        Some(entry) => Ok((id, entry)),
        None => Err(ResolveError::VersionNotFound(id)),
    }
}

} // verus!
