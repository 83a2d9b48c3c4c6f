use vstd::prelude::*;

use super::LoaderError;
use crate::foundation::maven::{library_path, spec_library_path};
use crate::foundation::options::LoaderKind;
use crate::foundation::paths::{path_join, spec_path_join};
use crate::foundation::text::{
    append, chars_of, contains, contains_exec, push_all, str_eq, string_of, string_views,
};
use crate::foundation::paths::join;
use crate::launcher::arguments::join_strings;
use crate::providers::fabric::{LoaderVersion, VersionsMeta};
use crate::providers::launchermeta::Library;

verus! {

/// The name of the loader family in messages.
pub open spec fn spec_label(kind: LoaderKind) -> Seq<char> {
    if kind == LoaderKind::Quilt {
        "QuiltMC"@
    } else {
        "FabricMC"@
    }
}

/// The index of the first loader version that is not a beta, from `i` on.
pub open spec fn spec_first_stable(loaders: Seq<LoaderVersion>, i: int) -> Option<int>
    decreases loaders.len() - i,
{
    if i < 0 || i >= loaders.len() {
        None
    } else if !contains(loaders[i].version@, "beta"@) {
        Some(i)
    } else {
        spec_first_stable(loaders, i + 1)
    }
}

/// The index of the first loader version named `build`, from `i` on.
pub open spec fn spec_named(loaders: Seq<LoaderVersion>, build: Seq<char>, i: int) -> Option<int>
    decreases loaders.len() - i,
{
    if i < 0 || i >= loaders.len() {
        None
    } else if loaders[i].version@ == build {
        Some(i)
    } else {
        spec_named(loaders, build, i + 1)
    }
}

/// Which loader version a build name selects: `latest` (and `recommended`, except for Quilt,
/// where it is the first non-beta) is the first listed; any other name is the version so
/// named.
pub open spec fn spec_selected(kind: LoaderKind, build: Seq<char>, loaders: Seq<LoaderVersion>) -> Option<int> {
    if build == "latest"@ || (build == "recommended"@ && kind != LoaderKind::Quilt) {
        if loaders.len() > 0 {
            Some(0)
        } else {
            None
        }
    } else if build == "recommended"@ {
        spec_first_stable(loaders, 0)
    } else {
        spec_named(loaders, build, 0)
    }
}

/// Whether the loader lists the game version.
pub open spec fn spec_supports(versions: VersionsMeta, minecraft: Seq<char>) -> bool {
    exists|i: int| 0 <= i < versions.game@.len() && (#[trigger] versions.game@[i]).version@ == minecraft
}

/// The loader version to install for a game version and build name, or why there is none.
pub fn select_loader(kind: LoaderKind, minecraft: &str, build: &str, versions: &VersionsMeta) -> (r: Result<String, LoaderError>)
    ensures
        !spec_supports(*versions, minecraft@) ==> (r matches Err(LoaderError::Unsupported(m)) && m@
            == spec_label(kind) + " doesn't support Minecraft "@ + minecraft@),
        spec_supports(*versions, minecraft@) ==> match spec_selected(kind, build@, versions.loader@) {
            Some(i) => (r matches Ok(v) && v@ == versions.loader@[i].version@),
            None => (r matches Err(LoaderError::Unsupported(m)) && m@ == (if kind == LoaderKind::Quilt {
                "QuiltMC Loader"@
            } else {
                "Fabric Loader"@
            }) + " "@ + build@ + " not found, Available builds: "@ + join(
                versions.loader@.map_values(|l: LoaderVersion| l.version@),
                ", "@,
            )),
        },
{
    let mut found = false;
    let mut g: usize = 0;
    while g < versions.game.len()
        invariant
            g <= versions.game.len(),
            found == exists|i: int| 0 <= i < g && (#[trigger] versions.game@[i]).version@ == minecraft@,
        decreases versions.game.len() - g,
    {
        if str_eq(versions.game[g].version.as_str(), minecraft) {
            found = true;
        }
        g = g + 1;
    }
    if !found {
        let mut m = chars_of(if kind == LoaderKind::Quilt { "QuiltMC" } else { "FabricMC" });
        append(&mut m, " doesn't support Minecraft ");
        append(&mut m, minecraft);
        return Err(LoaderError::Unsupported(string_of(&m)));
    }
    let loaders = &versions.loader;
    let selected: Option<usize> = if str_eq(build, "latest") || (str_eq(build, "recommended") && kind != LoaderKind::Quilt) {
        if loaders.len() > 0 {
            Some(0)
        } else {
            None
        }
    } else if str_eq(build, "recommended") {
        proof {
            reveal_strlit("beta");
        }
        let beta = chars_of("beta");
        let mut i: usize = 0;
        let mut pick: Option<usize> = None;
        while i < loaders.len()
            invariant
                i <= loaders.len(),
                beta@ == "beta"@,
                pick is None ==> spec_first_stable(loaders@, 0) == spec_first_stable(loaders@, i as int),
                pick matches Some(p) ==> spec_first_stable(loaders@, 0) == Some(p as int) && p < loaders@.len(),
            decreases loaders.len() - i,
        {
            if pick.is_none() && !contains_exec(&chars_of(loaders[i].version.as_str()), &beta) {
                pick = Some(i);
            }
            i = i + 1;
        }
        pick
    } else {
        let mut i: usize = 0;
        let mut pick: Option<usize> = None;
        while i < loaders.len()
            invariant
                i <= loaders.len(),
                pick is None ==> spec_named(loaders@, build@, 0) == spec_named(loaders@, build@, i as int),
                pick matches Some(p) ==> spec_named(loaders@, build@, 0) == Some(p as int) && p < loaders@.len(),
            decreases loaders.len() - i,
        {
            if pick.is_none() && str_eq(loaders[i].version.as_str(), build) {
                pick = Some(i);
            }
            i = i + 1;
        }
        pick
    };
    match selected {
        Some(i) => Ok(loaders[i].version.clone()),
        None => {
            let mut names: Vec<String> = Vec::new();
            let mut k: usize = 0;
            while k < loaders.len()
                invariant
                    k <= loaders.len(),
                    string_views(names@) == loaders@.subrange(0, k as int).map_values(|l: LoaderVersion| l.version@),
                decreases loaders.len() - k,
            {
                let ghost nn = names@;
                names.push(loaders[k].version.clone());
                assert(loaders@.subrange(0, k + 1).map_values(|l: LoaderVersion| l.version@) =~= loaders@.subrange(0, k as int).map_values(|l: LoaderVersion| l.version@).push(loaders@[k as int].version@));
                assert(string_views(names@) =~= string_views(nn).push(loaders@[k as int].version@));
                k = k + 1;
            }
            assert(loaders@.subrange(0, loaders@.len() as int) =~= loaders@);
            let mut m = chars_of(if kind == LoaderKind::Quilt { "QuiltMC Loader" } else { "Fabric Loader" });
            append(&mut m, " ");
            append(&mut m, build);
            append(&mut m, " not found, Available builds: ");
            push_all(&mut m, &join_strings(&names, ", "));
            Err(LoaderError::Unsupported(string_of(&m)))
        },
    }
}

/// Where a Fabric-like library goes, and where it is downloaded from: its repository URL
/// followed by its Maven path; none for a library with rules.
pub open spec fn spec_library_fetch(library: Library, loader_dir: Seq<char>) -> Option<(Seq<char>, Seq<char>)> {
    if library.rules is Some {
        None
    } else {
        let (path, file, _) = spec_library_path(library.name@, None, None);
        let target = spec_path_join(spec_path_join(spec_path_join(loader_dir, "libraries"@), path), file);
        let base = match library.url {
            Some(u) => u@,
            None => Seq::empty(),
        };
        Some((target, base + path + "/"@ + file))
    }
}

/// Where a Fabric-like library goes and where it comes from.
pub fn library_fetch(library: &Library, loader_dir: &str) -> (r: Option<(String, String)>)
    ensures
        match r {
            Some((t, u)) => spec_library_fetch(*library, loader_dir@) == Some((t@, u@)),
            None => spec_library_fetch(*library, loader_dir@) is None,
        },
{
    if library.rules.is_some() {
        return None;
    }
    let info = library_path(library.name.as_str(), None, None);
    let libraries = path_join(loader_dir, "libraries");
    let dir = path_join(libraries.as_str(), info.path.as_str());
    let target = path_join(dir.as_str(), info.name.as_str());
    let mut url = match &library.url {
        Some(u) => chars_of(u.as_str()),
        None => Vec::new(),
    };
    append(&mut url, info.path.as_str());
    append(&mut url, "/");
    append(&mut url, info.name.as_str());
    Some((target, string_of(&url)))
}

} // verus!
