pub mod arguments;
pub mod java;

use vstd::prelude::*;

use crate::authenticator::account::{
    spec_xuid, Account,
};
use crate::foundation::options::{
    spec_concurrency, LaunchOptions,
};
use crate::foundation::paths::{
    components, is_component, lemma_concat_component, lemma_join_component, path_join,
    spec_path_join,
};
use crate::foundation::text::{
    lower, opt_view, str_eq, string_views,
};
use crate::loader::InstallConfig;
use crate::network::json::{as_str, member, spec_as_str, spec_member, JsonValue};
use crate::network::{
    download_models, DownloadModel,
};
use crate::resolver::{
    GameFiles, LABEL_LOG_CONFIGS,
};

verus! {

/// Why a launch could not go on.
#[derive(Debug, Clone, PartialEq, Eq)]
pub enum LaunchError {
    LoaderNotFound(String),
    NoJava,
    JavaUnavailable(String),
    NoMainClass,
}

/// The hash of the macOS dock icon an asset index names: the `hash` text of the
/// `icons/minecraft.icns` object.
pub open spec fn spec_dock_icon(index: JsonValue) -> Option<Seq<char>> {
    match spec_member(index, "objects"@) {
        None => None,
        Some(objects) => match spec_member(objects, "icons/minecraft.icns"@) {
            None => None,
            Some(icon) => match spec_member(icon, "hash"@) {
                None => None,
                Some(hash) => spec_as_str(hash),
            },
        },
    }
}

/// The hash of the macOS dock icon in an asset index, when it names one.
pub fn dock_icon_hash(index: &JsonValue) -> (r: Option<String>)
    ensures
        opt_view(r) == spec_dock_icon(*index),
{
    let objects = match member(index, "objects") {
        Some(o) => o,
        None => {
            return None;
        },
    };
    let icon = match member(objects, "icons/minecraft.icns") {
        Some(i) => i,
        None => {
            return None;
        },
    };
    let hash = match member(icon, "hash") {
        Some(h) => h,
        None => {
            return None;
        },
    };
    match as_str(hash) {
        Some(s) => Some(s.to_owned()),
        None => None,
    }
}

/// `root/versions/<id>/natives`.
pub open spec fn spec_natives_dir(root: Seq<char>, version_id: Seq<char>) -> Seq<char> {
    spec_path_join(spec_path_join(spec_path_join(root, "versions"@), version_id), "natives"@)
}

/// Where the natives of a version are extracted.
pub fn natives_dir(root: &str, version_id: &str) -> (r: String)
    ensures
        r@ == spec_natives_dir(root@, version_id@),
{
    let versions = path_join(root, "versions");
    let dir = path_join(versions.as_str(), version_id);
    path_join(dir.as_str(), "natives")
}

/// The secrets of an account that a printed command line must not show: its tokens, its
/// uuid and its Xbox user id, those that are not empty.
pub open spec fn spec_secrets(account: Account) -> Seq<Seq<char>> {
    let all = seq![account.access_token@, account.client_token@, account.uuid@];
    let with_xuid = match spec_xuid(account.xbox_account) {
        Some(x) => all.push(x),
        None => all,
    };
    with_xuid.filter(|s: Seq<char>| s.len() > 0)
}

/// The non-empty secrets of an account.
pub fn secrets(account: &Account) -> (r: Vec<String>)
    ensures
        string_views(r@) == spec_secrets(*account),
{
    let mut all: Vec<String> = Vec::new();
    all.push(account.access_token.clone());
    all.push(account.client_token.clone());
    all.push(account.uuid.clone());
    if let Some(x) = account.xuid() {
        all.push(x.to_owned());
    }
    let ghost full = string_views(all@);
    assert(full =~= match spec_xuid(account.xbox_account) {
        Some(x) => seq![account.access_token@, account.client_token@, account.uuid@].push(x),
        None => seq![account.access_token@, account.client_token@, account.uuid@],
    });
    let mut kept: Vec<String> = Vec::new();
    let mut i: usize = 0;
    while i < all.len()
        invariant
            i <= all.len(),
            full == string_views(all@),
            string_views(kept@) == full.subrange(0, i as int).filter(|s: Seq<char>| s.len() > 0),
        decreases all.len() - i,
    {
        proof {
            assert(full.subrange(0, i + 1) =~= full.subrange(0, i as int).push(full[i as int]));
            full.subrange(0, i as int).lemma_filter_push(full[i as int], |s: Seq<char>| s.len() > 0);
        }
        if all[i].as_str().unicode_len() > 0 {
            let ghost kk = kept@;
            kept.push(all[i].clone());
            assert(string_views(kept@) =~= string_views(kk).push(all@[i as int]@));
        }
        i = i + 1;
    }
    assert(full.subrange(0, all@.len() as int) =~= full);
    kept
}

/// Refuses a launch that enables a loader without naming one.
pub fn check_loader(options: &LaunchOptions) -> (r: Result<(), LaunchError>)
    ensures
        (options.loader.enable && options.loader.kind is None) <==> r is Err,
        r matches Err(e) ==> e matches LaunchError::LoaderNotFound(n) && n@ == "null"@,
{
    if options.loader.enable && options.loader.kind.is_none() {
        return Err(LaunchError::LoaderNotFound("null".to_owned()));
    }
    Ok(())
}

/// The Java a launch uses before any is installed: the one the options give, else Mojang's
/// runtime when one was resolved.
pub fn chosen_java(options: &LaunchOptions, files: &GameFiles) -> (r: Option<String>)
    ensures
        opt_view(r) == match options.java.path {
            Some(p) => Some(p@),
            None => opt_view(files.java_executable),
        },
{
    match &options.java.path {
        Some(p) => Some(p.clone()),
        None => match &files.java_executable {
            Some(j) => Some(j.clone()),
            None => None,
        },
    }
}

/// `root/versions/<id>/<id><ext>`.
pub open spec fn spec_version_path(root: Seq<char>, id: Seq<char>, ext: Seq<char>) -> Seq<char> {
    spec_path_join(spec_path_join(spec_path_join(root, "versions"@), id), id + ext)
}

/// The game jar and manifest handed to a loader installer are the files the resolver writes
/// for the version: below the root come `versions`, the version id, then the id with `.jar`
/// or `.json`.
pub proof fn law_installer_gets_the_version_files(root: Seq<char>, id: Seq<char>)
    ensures
        spec_version_path(root, id, ".jar"@) == crate::resolver::spec_version_file(root, id, ".jar"@),
        spec_version_path(root, id, ".json"@) == crate::resolver::spec_version_file(root, id, ".json"@),
        is_component(id) ==> components(spec_version_path(root, id, ".jar"@)) == components(root)
            + seq!["versions"@, id, id + ".jar"@],
        is_component(id) ==> components(spec_version_path(root, id, ".json"@)) == components(root)
            + seq!["versions"@, id, id + ".json"@],
{
    if is_component(id) {
        reveal_strlit("versions");
        reveal_strlit(".jar");
        reveal_strlit(".json");
        reveal_strlit(".");
        assert(is_component("versions"@)) by {
            assert("versions"@ != "."@) by {
                assert("versions"@.len() != "."@.len());
            }
        }
        assert(!".jar"@.contains('/'));
        assert(!".json"@.contains('/'));
        lemma_concat_component(id, ".jar"@);
        lemma_concat_component(id, ".json"@);
        let versions = spec_path_join(root, "versions"@);
        lemma_join_component(root, "versions"@);
        lemma_join_component(versions, id);
        let dir = spec_path_join(versions, id);
        lemma_join_component(dir, id + ".jar"@);
        lemma_join_component(dir, id + ".json"@);
        assert(components(root).push("versions"@).push(id).push(id + ".jar"@) =~= components(root)
            + seq!["versions"@, id, id + ".jar"@]);
        assert(components(root).push("versions"@).push(id).push(id + ".json"@) =~= components(root)
            + seq!["versions"@, id, id + ".json"@]);
    }
}

/// What the loader installer is given: the loader the options name, the game version, the
/// build in lower case, the loader directory, the Java, the game jar and manifest.
pub fn install_config(options: &LaunchOptions, version_id: &str, java: &str) -> (r: Result<InstallConfig, LaunchError>)
    ensures
        options.loader.kind is None ==> (r matches Err(LaunchError::LoaderNotFound(n)) && n@ == "null"@),
        options.loader.kind matches Some(kind) ==> (r matches Ok(c) && {
            &&& c.kind == kind
            &&& c.minecraft_version@ == version_id@
            &&& c.build@ == lower(options.loader.build@)
            &&& c.loader_dir@ == crate::foundation::paths::spec_join_normalized(options.root@, options.loader.path@)
            &&& c.java_path@ == java@
            &&& c.minecraft_jar@ == spec_version_path(options.root@, version_id@, ".jar"@)
            &&& c.minecraft_json@ == spec_version_path(options.root@, version_id@, ".json"@)
            &&& c.concurrency == spec_concurrency(options.download_concurrency)
            &&& c.timeout == options.timeout
        }),
{
    let kind = match options.loader.kind {
        Some(k) => k,
        None => {
            return Err(LaunchError::LoaderNotFound("null".to_owned()));
        },
    };
    let versions = path_join(options.root.as_str(), "versions");
    let dir = path_join(versions.as_str(), version_id);
    let mut jar = crate::foundation::text::chars_of(version_id);
    crate::foundation::text::append(&mut jar, ".jar");
    let mut json = crate::foundation::text::chars_of(version_id);
    crate::foundation::text::append(&mut json, ".json");
    Ok(InstallConfig {
        kind,
        minecraft_version: version_id.to_owned(),
        build: options.loader_build(),
        loader_dir: options.loader_dir(),
        java_path: java.to_owned(),
        minecraft_jar: path_join(dir.as_str(), crate::foundation::text::string_of(&jar).as_str()),
        minecraft_json: path_join(dir.as_str(), crate::foundation::text::string_of(&json).as_str()),
        concurrency: options.concurrency(),
        timeout: options.timeout,
    })
}

/// The files a verification keeps: every download but the logging configurations, and every
/// written file.
pub open spec fn spec_kept_files(downloads: Seq<DownloadModel>, content_paths: Seq<Seq<char>>) -> Seq<Seq<char>> {
    downloads.filter(|d: DownloadModel| d.label != LABEL_LOG_CONFIGS@).map_values(|d: DownloadModel| d.path)
        + content_paths
}

/// The files a verification keeps.
pub fn kept_files(files: &GameFiles) -> (r: Vec<String>)
    ensures
        string_views(r@) == spec_kept_files(
            download_models(files.downloads@),
            files.content@.map_values(|c: crate::resolver::ContentFile| c.path@),
        ),
{
    let ghost ds = download_models(files.downloads@);
    let mut r: Vec<String> = Vec::new();
    let mut i: usize = 0;
    while i < files.downloads.len()
        invariant
            i <= files.downloads.len(),
            ds == download_models(files.downloads@),
            string_views(r@) == ds.subrange(0, i as int).filter(|d: DownloadModel| d.label != LABEL_LOG_CONFIGS@).map_values(|d: DownloadModel| d.path),
        decreases files.downloads.len() - i,
    {
        proof {
            assert(ds.subrange(0, i + 1) =~= ds.subrange(0, i as int).push(ds[i as int]));
            ds.subrange(0, i as int).lemma_filter_push(ds[i as int], |d: DownloadModel| d.label != LABEL_LOG_CONFIGS@);
        }
        if !str_eq(files.downloads[i].label.as_str(), LABEL_LOG_CONFIGS) {
            let ghost rr = r@;
            r.push(files.downloads[i].path.clone());
            assert(string_views(r@) =~= string_views(rr).push(files.downloads@[i as int].path@));
        }
        i = i + 1;
    }
    assert(ds.subrange(0, files.downloads@.len() as int) =~= ds);
    let ghost head = string_views(r@);
    let mut k: usize = 0;
    while k < files.content.len()
        invariant
            k <= files.content.len(),
            string_views(r@) == head + files.content@.subrange(0, k as int).map_values(|c: crate::resolver::ContentFile| c.path@),
        decreases files.content.len() - k,
    {
        let ghost rr = r@;
        r.push(files.content[k].path.clone());
        assert(files.content@.subrange(0, k + 1).map_values(|c: crate::resolver::ContentFile| c.path@) =~= files.content@.subrange(0, k as int).map_values(|c: crate::resolver::ContentFile| c.path@).push(files.content@[k as int].path@));
        assert(string_views(r@) =~= string_views(rr).push(files.content@[k as int].path@));
        k = k + 1;
    }
    assert(files.content@.subrange(0, files.content@.len() as int) =~= files.content@);
    r
}

} // verus!
