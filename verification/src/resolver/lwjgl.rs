use vstd::prelude::*;

use crate::foundation::os::Arch;
use crate::foundation::text::{
    chars_of, contains, contains_exec, key_index, lemma_rfind_char, lookup, rfind_char,
    rfind_char_exec, slice, starts_with, starts_with_exec, string_of,
};
use crate::providers::launchermeta::{spec_library_models, Library, LibraryModel};

verus! {

/// The part of a library name after its last `:`.
pub open spec fn spec_last_part(name: Seq<char>) -> Seq<char> {
    match rfind_char(name, ':') {
        Some(i) => name.subrange(i + 1, name.len() as int),
        None => name,
    }
}

/// The index of the first library, from `i` on, whose name starts with `p` or `q`.
pub open spec fn spec_first_named(libraries: Seq<LibraryModel>, p: Seq<char>, q: Seq<char>, i: int) -> Option<int>
    decreases libraries.len() - i,
{
    if i < 0 || i >= libraries.len() {
        None
    } else if starts_with(libraries[i].name, p) || starts_with(libraries[i].name, q) {
        Some(i)
    } else {
        spec_first_named(libraries, p, q, i + 1)
    }
}

/// The libraries whose name does not contain `fragment`, in order.
pub open spec fn spec_without(libraries: Seq<LibraryModel>, fragment: Seq<char>) -> Seq<LibraryModel> {
    libraries.filter(|l: LibraryModel| !contains(l.name, fragment))
}

/// The table entry an LWJGL version uses: every 2.9 build uses the 2.9.4 entry.
pub open spec fn spec_table_key(version: Seq<char>) -> Seq<char> {
    if contains(version, "2.9"@) {
        "2.9.4"@
    } else {
        version
    }
}

/// The libraries of a version on an ARM machine, or `None` when nothing changes: JInput is
/// dropped when the version names it, and LWJGL is swapped for the ARM build of its table
/// entry when the table has one. `aarch64` is the table for 64-bit ARM and `aarch` the one for
/// 32-bit ARM; other architectures are left alone.
pub open spec fn spec_process(
    libraries: Seq<LibraryModel>,
    arch: Arch,
    aarch64: Seq<(String, Vec<Library>)>,
    aarch: Seq<(String, Vec<Library>)>,
) -> Option<Seq<LibraryModel>> {
    if arch != Arch::Arm64 && arch != Arch::Arm {
        None
    } else {
        let table = if arch == Arch::Arm64 { aarch64 } else { aarch };
        let jinput = spec_first_named(libraries, "net.java.jinput:jinput-platform:"@, "net.java.jinput:jinput:"@, 0);
        let lwjgl = spec_first_named(libraries, "org.lwjgl:lwjgl:"@, "org.lwjgl.lwjgl:lwjgl:"@, 0);
        let kept = if jinput is Some { spec_without(libraries, "jinput"@) } else { libraries };
        let replacement = match lwjgl {
            Some(i) => lookup(table, spec_table_key(spec_last_part(libraries[i].name))),
            None => None,
        };
        match replacement {
            Some(extra) => Some(spec_without(kept, "lwjgl"@) + spec_library_models(extra@)),
            None => if jinput is Some { Some(kept) } else { None },
        }
    }
}

fn first_named(libraries: &Vec<Library>, p: &str, q: &str) -> (r: Option<usize>)
    ensures
        match r {
            Some(k) => spec_first_named(spec_library_models(libraries@), p@, q@, 0) == Some(k as int)
                && k < libraries@.len(),
            None => spec_first_named(spec_library_models(libraries@), p@, q@, 0) is None,
        },
{
    let ghost models = spec_library_models(libraries@);
    let pc = chars_of(p);
    let qc = chars_of(q);
    let mut i: usize = 0;
    while i < libraries.len()
        invariant
            i <= libraries.len(),
            models == spec_library_models(libraries@),
            pc@ == p@,
            qc@ == q@,
            spec_first_named(models, p@, q@, 0) == spec_first_named(models, p@, q@, i as int),
        decreases libraries.len() - i,
    {
        assert(models[i as int] == libraries@[i as int]@);
        let name = chars_of(libraries[i].name.as_str());
        if starts_with_exec(&name, &pc) || starts_with_exec(&name, &qc) {
            return Some(i);
        }
        i = i + 1;
    }
    None
}

fn without(libraries: &Vec<Library>, fragment: &str) -> (r: Vec<Library>)
    ensures
        spec_library_models(r@) == spec_without(spec_library_models(libraries@), fragment@),
{
    let ghost models = spec_library_models(libraries@);
    let ghost pred = |l: LibraryModel| !contains(l.name, fragment@);
    let f = chars_of(fragment);
    let mut kept: Vec<Library> = Vec::new();
    let mut i: usize = 0;
    while i < libraries.len()
        invariant
            i <= libraries.len(),
            models == spec_library_models(libraries@),
            f@ == fragment@,
            pred == (|l: LibraryModel| !contains(l.name, fragment@)),
            spec_library_models(kept@) == models.subrange(0, i as int).filter(pred),
        decreases libraries.len() - i,
    {
        proof {
            assert(models.subrange(0, i + 1) =~= models.subrange(0, i as int).push(models[i as int]));
            models.subrange(0, i as int).lemma_filter_push(models[i as int], pred);
        }
        assert(models[i as int] == libraries@[i as int]@);
        if !contains_exec(&chars_of(libraries[i].name.as_str()), &f) {
            let ghost before = kept@;
            kept.push(libraries[i].duplicate());
            assert(spec_library_models(kept@) =~= spec_library_models(before).push(models[i as int]));
        }
        i = i + 1;
    }
    assert(models.subrange(0, libraries@.len() as int) =~= models);
    kept
}

fn last_part(name: &str) -> (r: String)
    ensures
        r@ == spec_last_part(name@),
{
    let n = chars_of(name);
    match rfind_char_exec(&n, ':') {
        Some(i) => {
            proof {
                lemma_rfind_char(n@, ':');
            }
            string_of(&slice(&n, i + 1, n.len()))
        },
        None => name.to_owned(),
    }
}

/// The libraries of a version on an ARM machine, or `None` when nothing changes.
pub fn process(libraries: &Vec<Library>, arch: Arch, aarch64: &Vec<(String, Vec<Library>)>, aarch: &Vec<(String, Vec<Library>)>) -> (r: Option<Vec<Library>>)
    ensures
        match r {
            Some(v) => spec_process(spec_library_models(libraries@), arch, aarch64@, aarch@)
                == Some(spec_library_models(v@)),
            None => spec_process(spec_library_models(libraries@), arch, aarch64@, aarch@) is None,
        },
{
    let table = match arch {
        Arch::Arm64 => aarch64,
        Arch::Arm => aarch,
        _ => {
            return None;
        },
    };
    let jinput = first_named(libraries, "net.java.jinput:jinput-platform:", "net.java.jinput:jinput:");
    let lwjgl = first_named(libraries, "org.lwjgl:lwjgl:", "org.lwjgl.lwjgl:lwjgl:");
    let kept = if jinput.is_some() {
        without(libraries, "jinput")
    } else {
        let mut all: Vec<Library> = Vec::new();
        let mut i: usize = 0;
        while i < libraries.len()
            invariant
                i <= libraries.len(),
                spec_library_models(all@) == spec_library_models(libraries@).subrange(0, i as int),
            decreases libraries.len() - i,
        {
            let ghost before = all@;
            all.push(libraries[i].duplicate());
            assert(spec_library_models(all@) =~= spec_library_models(before).push(libraries@[i as int]@));
            i = i + 1;
        }
        assert(spec_library_models(libraries@).subrange(0, libraries@.len() as int) =~= spec_library_models(libraries@));
        all
    };
    let index = match lwjgl {
        Some(i) => {
            assert(spec_library_models(libraries@)[i as int] == libraries@[i as int]@);
            let version = last_part(libraries[i].name.as_str());
            proof {
                reveal_strlit("2.9");
            }
            let key = if contains_exec(&chars_of(version.as_str()), &chars_of("2.9")) {
                "2.9.4".to_owned()
            } else {
                version
            };
            proof {
                crate::foundation::text::lemma_key_index_from(table@, key@, 0);
            }
            key_index(table, key.as_str())
        },
        None => None,
    };
    match index {
        Some(k) => {
            let mut result = without(&kept, "lwjgl");
            let extra = &table[k].1;
            let ghost start = spec_library_models(result@);
            let mut j: usize = 0;
            while j < extra.len()
                invariant
                    j <= extra.len(),
                    spec_library_models(result@) == start + spec_library_models(extra@).subrange(0, j as int),
                decreases extra.len() - j,
            {
                let ghost before = result@;
                result.push(extra[j].duplicate());
                assert(spec_library_models(result@) =~= spec_library_models(before).push(extra@[j as int]@));
                j = j + 1;
            }
            assert(spec_library_models(extra@).subrange(0, extra@.len() as int) =~= spec_library_models(extra@));
            Some(result)
        },
        None => if jinput.is_some() {
            Some(kept)
        } else {
            None
        },
    }
}

} // verus!
