use std::time::Duration;

use vstd::prelude::*;

use super::paths::{join_normalized_exec, path_join, spec_join_normalized, spec_path_join};
use super::text::{chars_of, eq_exec, lower, lower_exec, string_of, trim, trim_exec};

verus! {

/// The mod loaders a launch can install.
#[derive(Debug, Clone, Copy, PartialEq, Eq, Hash, Structural)]
pub enum LoaderKind {
    Forge,
    NeoForge,
    Fabric,
    LegacyFabric,
    Quilt,
}

/// The lower-case name of a loader.
pub open spec fn spec_loader_name(kind: LoaderKind) -> Seq<char> {
    match kind {
        LoaderKind::Forge => "forge"@,
        LoaderKind::NeoForge => "neoforge"@,
        LoaderKind::Fabric => "fabric"@,
        LoaderKind::LegacyFabric => "legacyfabric"@,
        LoaderKind::Quilt => "quilt"@,
    }
}

/// The loader a name designates, ignoring surrounding whitespace and ASCII case.
pub open spec fn spec_parse_loader(value: Seq<char>) -> Option<LoaderKind> {
    let name = lower(trim(value));
    if name == "forge"@ {
        Some(LoaderKind::Forge)
    } else if name == "neoforge"@ {
        Some(LoaderKind::NeoForge)
    } else if name == "fabric"@ {
        Some(LoaderKind::Fabric)
    } else if name == "legacyfabric"@ {
        Some(LoaderKind::LegacyFabric)
    } else if name == "quilt"@ {
        Some(LoaderKind::Quilt)
    } else {
        None
    }
}

impl LoaderKind {
    /// Reads a loader name, ignoring surrounding whitespace and ASCII case.
    pub fn parse(value: &str) -> (r: Option<Self>)
        ensures
            r == spec_parse_loader(value@),
    {
        let v = chars_of(value);
        let name = lower_exec(&trim_exec(&v));
        if eq_exec(&name, &chars_of("forge")) {
            Some(Self::Forge)
        } else if eq_exec(&name, &chars_of("neoforge")) {
            Some(Self::NeoForge)
        } else if eq_exec(&name, &chars_of("fabric")) {
            Some(Self::Fabric)
        } else if eq_exec(&name, &chars_of("legacyfabric")) {
            Some(Self::LegacyFabric)
        } else if eq_exec(&name, &chars_of("quilt")) {
            Some(Self::Quilt)
        } else {
            None
        }
    }

    /// The lower-case name of the loader.
    pub fn name(self) -> (r: &'static str)
        ensures
            r@ == spec_loader_name(self),
    {
        match self {
            Self::Forge => "forge",
            Self::NeoForge => "neoforge",
            Self::Fabric => "fabric",
            Self::LegacyFabric => "legacyfabric",
            Self::Quilt => "quilt",
        }
    }
}

/// The loader part of the launch options.
#[derive(Debug, Clone)]
pub struct LoaderOptions {
    pub path: String,
    pub kind: Option<LoaderKind>,
    pub build: String,
    pub enable: bool,
}

impl Default for LoaderOptions {
    fn default() -> (r: Self)
        ensures
            r.path@ == "./loader"@,
            r.kind is None,
            r.build@ == "latest"@,
            !r.enable,
    {
        Self { path: "./loader".to_owned(), kind: None, build: "latest".to_owned(), enable: false }
    }
}

/// Which Java runs the game.
#[derive(Debug, Clone)]
pub struct JavaOptions {
    pub path: Option<String>,
    pub version: Option<String>,
    pub kind: Option<String>,
}

impl Default for JavaOptions {
    fn default() -> (r: Self)
        ensures
            r.path is None,
            r.version is None,
            r.kind is None,
    {
        Self { path: None, version: None, kind: None }
    }
}

/// The game window.
#[derive(Debug, Clone)]
pub struct ScreenOptions {
    pub width: Option<u32>,
    pub height: Option<u32>,
    pub fullscreen: bool,
}

impl Default for ScreenOptions {
    fn default() -> (r: Self)
        ensures
            r.width is None,
            r.height is None,
            !r.fullscreen,
    {
        Self { width: None, height: None, fullscreen: false }
    }
}

/// The heap of the game, as `-Xms` and `-Xmx` values.
#[derive(Debug, Clone)]
pub struct MemoryOptions {
    pub min: String,
    pub max: String,
}

impl Default for MemoryOptions {
    fn default() -> (r: Self)
        ensures
            r.min@ == "1G"@,
            r.max@ == "2G"@,
    {
        Self { min: "1G".to_owned(), max: "2G".to_owned() }
    }
}

/// Everything a launch is configured with. Paths are text with `/` separators.
#[derive(Debug)]
pub struct LaunchOptions {
    pub url: Option<String>,
    pub root: String,
    pub version: String,
    pub instance: Option<String>,
    pub detached: bool,
    pub intel_enabled_mac: bool,
    pub ignore_log4j: bool,
    pub download_concurrency: usize,
    pub bypass_offline: bool,
    pub loader: LoaderOptions,
    pub mcp: Option<String>,
    pub verify: bool,
    pub ignored: Vec<String>,
    pub jvm_args: Vec<String>,
    pub game_args: Vec<String>,
    pub java: JavaOptions,
    pub screen: ScreenOptions,
    pub memory: MemoryOptions,
    pub timeout: Duration,
}

/// The `Duration` that `Duration::from_secs` makes of a number of seconds.
pub uninterp spec fn duration_from_secs(secs: u64) -> Duration;

/// A duration of whole seconds, through `Duration::from_secs`, which never panics.
#[verifier::external_body]
fn seconds(secs: u64) -> (r: Duration)
    ensures
        r == duration_from_secs(secs),
{
    Duration::from_secs(secs)
}

/// The game directory: `root/instances/<instance>` for an instance, else the root.
pub open spec fn spec_game_dir(root: Seq<char>, instance: Option<Seq<char>>) -> Seq<char> {
    match instance {
        Some(i) => spec_path_join(spec_path_join(root, "instances"@), i),
        None => root,
    }
}

/// `download_concurrency` kept between 1 and 30.
pub open spec fn spec_concurrency(n: usize) -> usize {
    if n < 1 {
        1
    } else if n > 30 {
        30
    } else {
        n
    }
}

impl LaunchOptions {
    /// The default options for a root directory (already absolute) and a
    /// version.
    pub fn new(root: &str, version: &str) -> (r: Self)
        ensures
            r.root@ == root@,
            r.version@ == version@,
            r.url is None,
            r.instance is None,
            !r.detached,
            !r.intel_enabled_mac,
            !r.ignore_log4j,
            r.download_concurrency == 5,
            !r.bypass_offline,
            r.loader.path@ == "./loader"@,
            r.loader.kind is None,
            r.loader.build@ == "latest"@,
            !r.loader.enable,
            r.mcp is None,
            !r.verify,
            r.ignored@.len() == 0,
            r.jvm_args@.len() == 0,
            r.game_args@.len() == 0,
            r.java.path is None,
            r.java.version is None,
            r.java.kind is None,
            r.screen.width is None,
            r.screen.height is None,
            !r.screen.fullscreen,
            r.memory.min@ == "1G"@,
            r.memory.max@ == "2G"@,
            r.timeout == duration_from_secs(10),
    {
        Self {
            url: None,
            root: root.to_owned(),
            version: version.to_owned(),
            instance: None,
            detached: false,
            intel_enabled_mac: false,
            ignore_log4j: false,
            download_concurrency: 5,
            bypass_offline: false,
            loader: LoaderOptions::default(),
            mcp: None,
            verify: false,
            ignored: Vec::new(),
            jvm_args: Vec::new(),
            game_args: Vec::new(),
            java: JavaOptions::default(),
            screen: ScreenOptions::default(),
            memory: MemoryOptions::default(),
            timeout: seconds(10),
        }
    }

    /// The number of parallel downloads, between 1 and 30.
    pub fn concurrency(&self) -> (r: usize)
        ensures
            r == spec_concurrency(self.download_concurrency),
    {
        if self.download_concurrency < 1 {
            1
        } else if self.download_concurrency > 30 {
            30
        } else {
            self.download_concurrency
        }
    }

    /// The directory the game runs in.
    pub fn game_dir(&self) -> (r: String)
        ensures
            r@ == spec_game_dir(
                self.root@,
                match self.instance {
                    Some(i) => Some(i@),
                    None => None,
                },
            ),
    {
        match &self.instance {
            Some(instance) => {
                let instances = path_join(self.root.as_str(), "instances");
                path_join(instances.as_str(), instance.as_str())
            },
            None => self.root.clone(),
        }
    }

    /// The directory mod loaders are installed into: `loader.path` resolved against the root.
    pub fn loader_dir(&self) -> (r: String)
        ensures
            r@ == spec_join_normalized(self.root@, self.loader.path@),
    {
        join_normalized(self.root.as_str(), self.loader.path.as_str())
    }

    pub fn loader_kind(&self) -> (r: Option<LoaderKind>)
        ensures
            r == self.loader.kind,
    {
        self.loader.kind
    }

    /// The requested loader build, in lower case.
    pub fn loader_build(&self) -> (r: String)
        ensures
            r@ == lower(self.loader.build@),
    {
        string_of(&lower_exec(&chars_of(self.loader.build.as_str())))
    }

    /// The jar that replaces the client jar, resolved against the game directory.
    pub fn mcp_path(&self) -> (r: Option<String>)
        ensures
            self.mcp is None ==> r is None,
            self.mcp matches Some(m) ==> r matches Some(p) && p@ == spec_join_normalized(
                spec_game_dir(
                    self.root@,
                    match self.instance {
                        Some(i) => Some(i@),
                        None => None,
                    },
                ),
                m@,
            ),
    {
        match &self.mcp {
            None => None,
            Some(mcp) => {
                let base = self.game_dir();
                Some(join_normalized(base.as_str(), mcp.as_str()))
            },
        }
    }
}

/// `relative` resolved against `base` the way Node's `path.join` does: `..` goes up, `.` and a
/// leading `/` are ignored.
pub fn join_normalized(base: &str, relative: &str) -> (r: String)
    ensures
        r@ == spec_join_normalized(base@, relative@),
{
    string_of(&join_normalized_exec(&chars_of(base), &chars_of(relative)))
}

} // verus!
