use vstd::prelude::*;

use crate::foundation::rules::{duplicate_rules, spec_rule_models, Rule, RuleModel};
use crate::foundation::text::{
    chars_of, clone_strings, opt_view, push_all, str_eq, string_of, string_views,
};

verus! {

pub const VERSION_MANIFEST_URL: &'static str =
    "https://launchermeta.mojang.com/mc/game/version_manifest_v2.json";

pub const JAVA_RUNTIME_INDEX_URL: &'static str =
    "https://launchermeta.mojang.com/v1/products/java-runtime/2ec0cc96c44e5a76b9c8b7c39df7210883d12871/all.json";

pub const ASSETS_BASE_URL: &'static str = "https://resources.download.minecraft.net";

/// The version manifest: the latest release and snapshot, and every published version.
#[derive(Debug, Clone)]
pub struct VersionManifest {
    pub latest: LatestVersions,
    pub versions: Vec<VersionEntry>,
}

#[derive(Debug, Clone)]
pub struct LatestVersions {
    pub release: String,
    pub snapshot: String,
}

#[derive(Debug, Clone)]
pub struct VersionEntry {
    pub id: String,
    pub kind: String,
    pub url: String,
    pub sha1: Option<String>,
}

/// The version a requested name designates: the aliases of the latest release and snapshot,
/// or the name itself.
pub open spec fn spec_resolve_id(latest: LatestVersions, requested: Seq<char>) -> Seq<char> {
    if requested == "latest_release"@ || requested == "release"@ || requested == "latest"@ {
        latest.release@
    } else if requested == "latest_snapshot"@ || requested == "snapshot"@ {
        latest.snapshot@
    } else {
        requested
    }
}

/// The index of the first entry whose id is `id`, searching from `i`.
pub open spec fn spec_entry_index(versions: Seq<VersionEntry>, id: Seq<char>, i: int) -> Option<int>
    decreases versions.len() - i,
{
    if i < 0 || i >= versions.len() {
        None
    } else if versions[i].id@ == id {
        Some(i)
    } else {
        spec_entry_index(versions, id, i + 1)
    }
}

pub proof fn lemma_entry_index(versions: Seq<VersionEntry>, id: Seq<char>, i: int)
    requires
        0 <= i,
    ensures
        spec_entry_index(versions, id, i) matches Some(k) ==> i <= k < versions.len()
            && versions[k].id@ == id,
    decreases versions.len() - i,
{
    if i < versions.len() && versions[i].id@ != id {
        lemma_entry_index(versions, id, i + 1);
    }
}

impl VersionManifest {
    /// The version id that a requested name stands for.
    pub fn resolve_id<'a>(&'a self, requested: &'a str) -> (r: &'a str)
        ensures
            r@ == spec_resolve_id(self.latest, requested@),
    {
        if str_eq(requested, "latest_release") || str_eq(requested, "release") || str_eq(
            requested,
            "latest",
        ) {
            self.latest.release.as_str()
        } else if str_eq(requested, "latest_snapshot") || str_eq(requested, "snapshot") {
            self.latest.snapshot.as_str()
        } else {
            requested
        }
    }

    /// The first entry of the manifest whose id is `id`.
    pub fn find(&self, id: &str) -> (r: Option<&VersionEntry>)
        ensures
            spec_entry_index(self.versions@, id@, 0) matches Some(k) ==> r == Some(
                &self.versions@[k],
            ),
            spec_entry_index(self.versions@, id@, 0) is None ==> r is None,
    {
        let mut i: usize = 0;
        while i < self.versions.len()
            invariant
                i <= self.versions.len(),
                spec_entry_index(self.versions@, id@, 0) == spec_entry_index(
                    self.versions@,
                    id@,
                    i as int,
                ),
            decreases self.versions.len() - i,
        {
            if str_eq(self.versions[i].id.as_str(), id) {
                return Some(&self.versions[i]);
            }
            i = i + 1;
        }
        None
    }
}

/// A version manifest (`<id>.json`), with its tables as name/value pairs.
#[derive(Debug, Clone)]
pub struct VersionJson {
    pub id: String,
    pub kind: String,
    pub main_class: String,
    pub inherits_from: Option<String>,
    pub arguments: Option<Arguments>,
    pub minecraft_arguments: Option<String>,
    pub asset_index: Option<AssetIndexRef>,
    pub assets: Option<String>,
    pub downloads: Vec<(String, Artifact)>,
    pub libraries: Vec<Library>,
    pub java_version: Option<JavaVersion>,
    pub logging: Option<Logging>,
}

#[derive(Debug, Clone)]
pub struct Arguments {
    pub game: Vec<Argument>,
    pub jvm: Vec<Argument>,
    pub default_user_jvm: Vec<DefaultUserJvm>,
}

impl Default for Arguments {
    fn default() -> (r: Self)
        ensures
            r.game@.len() == 0,
            r.jvm@.len() == 0,
            r.default_user_jvm@.len() == 0,
    {
        Self { game: Vec::new(), jvm: Vec::new(), default_user_jvm: Vec::new() }
    }
}

#[derive(Debug, Clone)]
pub struct DefaultUserJvm {
    pub rules: Option<Vec<Rule>>,
    pub value: Option<ArgumentValue>,
}

/// One argument of a manifest: plain text, or a value that applies under rules.
#[derive(Debug, Clone)]
pub enum Argument {
    Plain(String),
    Conditional { rules: Vec<Rule>, value: ArgumentValue },
}

#[derive(Debug, Clone)]
pub enum ArgumentValue {
    One(String),
    Many(Vec<String>),
}

/// The texts of an argument value.
pub open spec fn spec_values(value: ArgumentValue) -> Seq<String> {
    match value {
        ArgumentValue::One(v) => seq![v],
        ArgumentValue::Many(vs) => vs@,
    }
}

impl ArgumentValue {
    /// The texts the value holds: one, or all of them in order.
    pub fn values(&self) -> (r: Vec<String>)
        ensures
            r@ == spec_values(*self),
    {
        match self {
            Self::One(value) => {
                let mut r: Vec<String> = Vec::new();
                r.push(value.clone());
                r
            },
            Self::Many(values) => clone_strings(values),
        }
    }
}

#[derive(Debug, Clone)]
pub struct AssetIndexRef {
    pub id: String,
    pub sha1: String,
    pub size: u64,
    pub url: String,
    pub total_size: Option<u64>,
}

#[derive(Debug, Clone)]
pub struct Artifact {
    pub path: Option<String>,
    pub sha1: String,
    pub size: u64,
    pub url: String,
}

/// A library of a manifest. `natives` maps platform names to classifiers, as pairs.
#[derive(Debug, Clone)]
pub struct Library {
    pub name: String,
    pub downloads: Option<LibraryDownloads>,
    pub natives: Option<Vec<(String, String)>>,
    pub rules: Option<Vec<Rule>>,
    pub extract: Option<Extract>,
    pub url: Option<String>,
}

/// The downloads of a library. `classifiers` maps classifiers to artifacts, as pairs.
#[derive(Debug, Clone)]
pub struct LibraryDownloads {
    pub artifact: Option<Artifact>,
    pub classifiers: Option<Vec<(String, Artifact)>>,
}

#[derive(Debug, Clone)]
pub struct Extract {
    pub exclude: Vec<String>,
}

impl Default for Extract {
    fn default() -> (r: Self)
        ensures
            r.exclude@.len() == 0,
    {
        Self { exclude: Vec::new() }
    }
}

#[derive(Debug, Clone)]
pub struct JavaVersion {
    pub component: String,
    pub major_version: u32,
}

#[derive(Debug, Clone)]
pub struct Logging {
    pub client: Option<LoggingClient>,
}

#[derive(Debug, Clone)]
pub struct LoggingClient {
    pub argument: String,
    pub file: LoggingFile,
    pub kind: String,
}

#[derive(Debug, Clone)]
pub struct LoggingFile {
    pub id: String,
    pub sha1: String,
    pub size: u64,
    pub url: String,
}

/// An asset index. `objects` maps asset names to objects, as pairs.
#[derive(Debug, Clone)]
pub struct AssetIndex {
    pub objects: Vec<(String, AssetObject)>,
    pub is_virtual: bool,
    pub map_to_resources: bool,
}

#[derive(Debug, Clone)]
pub struct AssetObject {
    pub hash: String,
    pub size: u64,
}

/// The Java runtime index: platform, then component, then the runtimes offered.
pub type JavaRuntimeIndex = Vec<(String, Vec<(String, Vec<JavaRuntimeEntry>)>)>;

#[derive(Debug, Clone)]
pub struct JavaRuntimeEntry {
    pub manifest: JavaRuntimeManifestRef,
    pub version: JavaRuntimeVersion,
}

#[derive(Debug, Clone)]
pub struct JavaRuntimeManifestRef {
    pub sha1: String,
    pub size: u64,
    pub url: String,
}

#[derive(Debug, Clone)]
pub struct JavaRuntimeVersion {
    pub name: String,
    pub released: String,
}

/// The files of a Java runtime, by relative path, as pairs.
#[derive(Debug, Clone)]
pub struct JavaRuntimeManifest {
    pub files: Vec<(String, JavaRuntimeFile)>,
}

#[derive(Debug, Clone)]
pub struct JavaRuntimeFile {
    pub kind: String,
    pub executable: bool,
    pub downloads: Option<JavaRuntimeDownloads>,
    pub target: Option<String>,
}

#[derive(Debug, Clone)]
pub struct JavaRuntimeDownloads {
    pub raw: Artifact,
    pub lzma: Option<Artifact>,
}

// ---------------------------------------------------------------------------------------------
// Asset objects.

/// The number of bytes UTF-8 takes for a character.
pub open spec fn utf8_len(c: char) -> nat {
    if (c as u32) < 0x80 {
        1
    } else if (c as u32) < 0x800 {
        2
    } else if (c as u32) < 0x10000 {
        3
    } else {
        4
    }
}

/// Whether the first two bytes of a hash end on a character boundary, so that they can be cut
/// off.
pub open spec fn spec_two_byte_prefix_ok(hash: Seq<char>) -> bool {
    hash.len() >= 1 && (utf8_len(hash[0]) == 2 || (utf8_len(hash[0]) == 1 && hash.len() >= 2
        && utf8_len(hash[1]) == 1))
}

/// The characters of the first two bytes of a hash.
pub open spec fn spec_two_byte_prefix(hash: Seq<char>) -> Seq<char> {
    if utf8_len(hash[0]) == 2 {
        hash.subrange(0, 1)
    } else {
        hash.subrange(0, 2)
    }
}

/// Where an object lives under `assets/objects`: its first two hash bytes, `/`, its hash.
pub open spec fn spec_relative_path(hash: Seq<char>) -> Seq<char> {
    spec_two_byte_prefix(hash) + "/"@ + hash
}

impl AssetObject {
    /// The object's path under `assets/objects`.
    pub fn relative_path(&self) -> (r: String)
        requires
            spec_two_byte_prefix_ok(self.hash@),
        ensures
            r@ == spec_relative_path(self.hash@),
    {
        let h = chars_of(self.hash.as_str());
        let first = h[0];
        let mut out: Vec<char> = Vec::new();
        out.push(first);
        if !((first as u32) >= 0x80 && (first as u32) < 0x800) {
            out.push(h[1]);
        }
        let slash = chars_of("/");
        push_all(&mut out, &slash);
        push_all(&mut out, &h);
        proof {
            assert(out@ =~= spec_relative_path(self.hash@));
        }
        string_of(&out)
    }

    /// Where the object is downloaded from.
    pub fn url(&self) -> (r: String)
        requires
            spec_two_byte_prefix_ok(self.hash@),
        ensures
            r@ == ASSETS_BASE_URL@ + "/"@ + spec_relative_path(self.hash@),
    {
        let mut out = chars_of(ASSETS_BASE_URL);
        push_all(&mut out, &chars_of("/"));
        push_all(&mut out, &chars_of(self.relative_path().as_str()));
        string_of(&out)
    }
}


// ---------------------------------------------------------------------------------------------
// Libraries as values.

pub struct ArtifactModel {
    pub path: Option<Seq<char>>,
    pub sha1: Seq<char>,
    pub size: u64,
    pub url: Seq<char>,
}

pub struct DownloadsModel {
    pub artifact: Option<ArtifactModel>,
    pub classifiers: Option<Seq<(Seq<char>, ArtifactModel)>>,
}

/// A library's content, with its texts as character sequences.
pub struct LibraryModel {
    pub name: Seq<char>,
    pub downloads: Option<DownloadsModel>,
    pub natives: Option<Seq<(Seq<char>, Seq<char>)>>,
    pub rules: Option<Seq<RuleModel>>,
    pub extract: Option<Seq<Seq<char>>>,
    pub url: Option<Seq<char>>,
}

impl View for Artifact {
    type V = ArtifactModel;

    open spec fn view(&self) -> ArtifactModel {
        ArtifactModel { path: opt_view(self.path), sha1: self.sha1@, size: self.size, url: self.url@ }
    }
}

pub open spec fn classifier_models(c: Seq<(String, Artifact)>) -> Seq<(Seq<char>, ArtifactModel)> {
    c.map_values(|e: (String, Artifact)| (e.0@, e.1@))
}

pub open spec fn pair_models(p: Seq<(String, String)>) -> Seq<(Seq<char>, Seq<char>)> {
    p.map_values(|e: (String, String)| (e.0@, e.1@))
}

impl View for LibraryDownloads {
    type V = DownloadsModel;

    open spec fn view(&self) -> DownloadsModel {
        DownloadsModel {
            artifact: match self.artifact {
                Some(a) => Some(a@),
                None => None,
            },
            classifiers: match self.classifiers {
                Some(c) => Some(classifier_models(c@)),
                None => None,
            },
        }
    }
}

impl View for Library {
    type V = LibraryModel;

    open spec fn view(&self) -> LibraryModel {
        LibraryModel {
            name: self.name@,
            downloads: match self.downloads {
                Some(d) => Some(d@),
                None => None,
            },
            natives: match self.natives {
                Some(n) => Some(pair_models(n@)),
                None => None,
            },
            rules: match self.rules {
                Some(r) => Some(spec_rule_models(r@)),
                None => None,
            },
            extract: match self.extract {
                Some(e) => Some(string_views(e.exclude@)),
                None => None,
            },
            url: opt_view(self.url),
        }
    }
}

/// The contents of a list of libraries.
pub open spec fn spec_library_models(libraries: Seq<Library>) -> Seq<LibraryModel> {
    libraries.map_values(|l: Library| l@)
}

fn duplicate_opt_string(s: &Option<String>) -> (r: Option<String>)
    ensures
        opt_view(r) == opt_view(*s),
{
    match s {
        Some(v) => Some(v.clone()),
        None => None,
    }
}

impl Artifact {
    /// A copy of the artifact.
    pub fn duplicate(&self) -> (r: Self)
        ensures
            r@ == self@,
    {
        Artifact {
            path: duplicate_opt_string(&self.path),
            sha1: self.sha1.clone(),
            size: self.size,
            url: self.url.clone(),
        }
    }
}

fn duplicate_classifiers(c: &Vec<(String, Artifact)>) -> (r: Vec<(String, Artifact)>)
    ensures
        classifier_models(r@) == classifier_models(c@),
{
    let mut r: Vec<(String, Artifact)> = Vec::new();
    let mut i: usize = 0;
    while i < c.len()
        invariant
            i <= c.len(),
            classifier_models(r@) == classifier_models(c@.subrange(0, i as int)),
        decreases c.len() - i,
    {
        r.push((c[i].0.clone(), c[i].1.duplicate()));
        proof {
            assert(classifier_models(c@.subrange(0, i + 1)) =~= classifier_models(
                c@.subrange(0, i as int),
            ).push((c@[i as int].0@, c@[i as int].1@)));
        }
        i = i + 1;
    }
    assert(c@.subrange(0, c.len() as int) =~= c@);
    r
}

fn duplicate_pairs(p: &Vec<(String, String)>) -> (r: Vec<(String, String)>)
    ensures
        pair_models(r@) == pair_models(p@),
{
    let mut r: Vec<(String, String)> = Vec::new();
    let mut i: usize = 0;
    while i < p.len()
        invariant
            i <= p.len(),
            pair_models(r@) == pair_models(p@.subrange(0, i as int)),
        decreases p.len() - i,
    {
        r.push((p[i].0.clone(), p[i].1.clone()));
        proof {
            assert(pair_models(p@.subrange(0, i + 1)) =~= pair_models(p@.subrange(0, i as int)).push(
                (p@[i as int].0@, p@[i as int].1@),
            ));
        }
        i = i + 1;
    }
    assert(p@.subrange(0, p.len() as int) =~= p@);
    r
}

impl LibraryDownloads {
    /// A copy of the downloads.
    pub fn duplicate(&self) -> (r: Self)
        ensures
            r@ == self@,
    {
        LibraryDownloads {
            artifact: match &self.artifact {
                Some(a) => Some(a.duplicate()),
                None => None,
            },
            classifiers: match &self.classifiers {
                Some(c) => Some(duplicate_classifiers(c)),
                None => None,
            },
        }
    }
}

impl Library {
    /// A copy of the library.
    pub fn duplicate(&self) -> (r: Self)
        ensures
            r@ == self@,
    {
        let extract = match &self.extract {
            Some(e) => Some(Extract { exclude: clone_strings(&e.exclude) }),
            None => None,
        };
        Library {
            name: self.name.clone(),
            downloads: match &self.downloads {
                Some(d) => Some(d.duplicate()),
                None => None,
            },
            natives: match &self.natives {
                Some(n) => Some(duplicate_pairs(n)),
                None => None,
            },
            rules: match &self.rules {
                Some(r) => Some(duplicate_rules(r)),
                None => None,
            },
            extract,
            url: duplicate_opt_string(&self.url),
        }
    }
}

} // verus!
