pub mod archive;
pub mod fabric;
pub mod forgelike;
pub mod mirrors;
pub mod patcher;

use std::time::Duration;

use vstd::prelude::*;

use crate::foundation::options::LoaderKind;
use crate::providers::launchermeta::{Argument, Library};

verus! {

/// What an installer needs: the loader, the game version and build, and where things go.
/// Paths are text with `/` separators.
#[derive(Debug)]
pub struct InstallConfig {
    pub kind: LoaderKind,
    pub minecraft_version: String,
    pub build: String,
    pub loader_dir: String,
    pub java_path: String,
    pub minecraft_jar: String,
    pub minecraft_json: String,
    pub concurrency: usize,
    pub timeout: Duration,
}

/// Why a loader could not be installed.
#[derive(Debug, Clone, PartialEq, Eq)]
pub enum LoaderError {
    Unsupported(String),
    Invalid(String),
}

/// An installed loader's version manifest. `raw` is the manifest as JSON text.
#[derive(Debug, Clone)]
pub struct LoaderJson {
    pub raw: String,
    pub id: Option<String>,
    pub main_class: Option<String>,
    pub inherits_from: Option<String>,
    pub minecraft_arguments: Option<String>,
    pub game_arguments: Vec<String>,
    pub jvm_arguments: Vec<String>,
    pub libraries: Vec<Library>,
    pub loader_dir: String,
}

/// The plain-text arguments of a list, in order; conditional ones are left out.
pub open spec fn spec_plain_strings(arguments: Seq<Argument>) -> Seq<Seq<char>>
    decreases arguments.len(),
{
    if arguments.len() == 0 {
        Seq::empty()
    } else {
        let rest = spec_plain_strings(arguments.drop_last());
        match arguments.last() {
            Argument::Plain(v) => rest.push(v@),
            Argument::Conditional { .. } => rest,
        }
    }
}

/// The plain-text arguments of a list, in order.
pub fn plain_strings(arguments: &[Argument]) -> (r: Vec<String>)
    ensures
        r@.map_values(|s: String| s@) == spec_plain_strings(arguments@),
{
    let mut r: Vec<String> = Vec::new();
    let mut i: usize = 0;
    while i < arguments.len()
        invariant
            i <= arguments.len(),
            r@.map_values(|s: String| s@) == spec_plain_strings(arguments@.subrange(0, i as int)),
        decreases arguments.len() - i,
    {
        let ghost before = r@;
        match &arguments[i] {
            Argument::Plain(value) => {
                r.push(value.clone());
                assert(r@.map_values(|s: String| s@) =~= before.map_values(|s: String| s@).push(
                    value@,
                ));
            },
            Argument::Conditional { .. } => {},
        }
        assert(arguments@.subrange(0, i + 1).drop_last() =~= arguments@.subrange(0, i as int));
        i = i + 1;
    }
    assert(arguments@.subrange(0, arguments.len() as int) =~= arguments@);
    r
}

/// The `install_profile.json` of a Forge-like installer. `data` maps names to entries, as
/// pairs.
#[derive(Debug, Clone)]
pub struct InstallSection {
    pub libraries: Vec<Library>,
    pub processors: Vec<Processor>,
    pub data: Vec<(String, DataEntry)>,
    pub path: Option<String>,
    pub file_path: Option<String>,
    pub json: Option<String>,
}

#[derive(Debug, Clone)]
pub struct Processor {
    pub jar: String,
    pub args: Vec<String>,
    pub classpath: Vec<String>,
    pub sides: Option<Vec<String>>,
}

#[derive(Debug, Clone)]
pub struct DataEntry {
    pub client: String,
    pub server: String,
}

} // verus!
