use vstd::prelude::*;

use super::{
    InstallConfig, InstallSection, Processor,
};
use crate::foundation::maven::{
    library_path, spec_library_path,
};
use crate::foundation::os::Platform;
use crate::foundation::paths::{
    path_join, spec_path_join,
};
use crate::foundation::text::{
    chars_of, contains_string, key_index, lemma_key_index_from, lookup, replace_all, replace_all_exec, replace_first, replace_first_exec, starts_with, starts_with_exec, str_eq, string_of, string_views, trim, trim_exec, slice,
};
use crate::launcher::arguments::join_strings;
use crate::providers::launchermeta::Library;

verus! {

/// Runs the processors of a Forge-like installer. `universal_prefix` picks the universal jar
/// among the installer's libraries.
pub struct Patcher<'a> {
    config: &'a InstallConfig,
    universal_prefix: &'a str,
}

/// One processor to run: its jar, its arguments with every placeholder resolved, and its
/// class path (the jar first).
#[derive(Debug, Clone)]
pub struct ProcessorRun {
    pub jar: String,
    pub args: Vec<String>,
    pub classpath: Vec<String>,
}

/// `{KEY}` without its first `{` and first `}`.
pub open spec fn spec_strip_braces(arg: Seq<char>) -> Seq<char> {
    replace_first(replace_first(arg, "{"@, Seq::empty()), "}"@, Seq::empty())
}

/// `[coordinate]` without its first `[` and first `]`.
pub open spec fn spec_strip_brackets(arg: Seq<char>) -> Seq<char> {
    replace_first(replace_first(arg, "["@, Seq::empty()), "]"@, Seq::empty())
}

/// A value without the quotes around it: when its trimmed text is at least two characters
/// between single or double quotes, what is inside them; otherwise the value unchanged.
pub open spec fn spec_unquote(value: Seq<char>) -> Seq<char> {
    let t = trim(value);
    if t.len() >= 2 && ((t[0] == '\'' && t.last() == '\'') || (t[0] == '"' && t.last() == '"')) {
        t.subrange(1, t.len() - 1)
    } else {
        value
    }
}

/// Whether a processor runs on the client: it names no sides, or names `client`.
pub open spec fn spec_runs_on_client(p: Processor) -> bool {
    match p.sides {
        None => true,
        Some(sides) => string_views(sides@).contains("client"@),
    }
}

/// Removes the first `{` and the first `}`.
pub fn strip_braces(arg: &str) -> (r: String)
    ensures
        r@ == spec_strip_braces(arg@),
{
    proof {
        reveal_strlit("{");
        reveal_strlit("}");
    }
    let a = replace_first_exec(&chars_of(arg), &chars_of("{"), &Vec::new());
    let b = replace_first_exec(&a, &chars_of("}"), &Vec::new());
    string_of(&b)
}

fn strip_brackets(arg: &str) -> (r: String)
    ensures
        r@ == spec_strip_brackets(arg@),
{
    let a = replace_first_exec(&chars_of(arg), &chars_of("["), &Vec::new());
    let b = replace_first_exec(&a, &chars_of("]"), &Vec::new());
    string_of(&b)
}

/// Removes the quotes around a value.
pub fn unquote(value: &str) -> (r: String)
    ensures
        r@ == spec_unquote(value@),
{
    let t = trim_exec(&chars_of(value));
    if t.len() >= 2 {
        let first = t[0];
        let last = t[t.len() - 1];
        if (first == '\'' && last == '\'') || (first == '"' && last == '"') {
            return string_of(&slice(&t, 1, t.len() - 1));
        }
    }
    value.to_owned()
}

/// The index of the first library whose name starts with `prefix`.
pub open spec fn spec_universal_index(libraries: Seq<Library>, prefix: Seq<char>, i: int) -> Option<int>
    decreases libraries.len() - i,
{
    if i < 0 || i >= libraries.len() {
        None
    } else if starts_with(libraries[i].name@, prefix) {
        Some(i)
    } else {
        spec_universal_index(libraries, prefix, i + 1)
    }
}

impl<'a> Patcher<'a> {
    pub closed spec fn loader_dir_text(&self) -> Seq<char> {
        self.config.loader_dir@
    }

    pub closed spec fn prefix_text(&self) -> Seq<char> {
        self.universal_prefix@
    }

    pub closed spec fn jar_text(&self) -> Seq<char> {
        self.config.minecraft_jar@
    }

    pub closed spec fn json_text(&self) -> Seq<char> {
        self.config.minecraft_json@
    }

    /// `<loader dir>/libraries`.
    pub open spec fn spec_libraries_dir(&self) -> Seq<char> {
        spec_path_join(self.loader_dir_text(), "libraries"@)
    }

    /// Where a library lives under the libraries directory.
    pub open spec fn spec_library_file(&self, coordinate: Seq<char>) -> Seq<char> {
        let (path, file, _) = spec_library_path(coordinate, None, None);
        spec_path_join(spec_path_join(self.spec_libraries_dir(), path), file)
    }

    /// What an installer argument becomes: a data entry's client value (unquoted), the
    /// binary patch next to the universal jar, or the argument with its directory placeholders
    /// filled in.
    pub open spec fn spec_set_argument(&self, arg: Seq<char>, profile: InstallSection) -> Seq<char> {
        let key = spec_strip_braces(arg);
        match lookup(profile.data@, key) {
            Some(entry) => if key == "BINPATCH"@ {
                let coordinate = match profile.path {
                    Some(p) => p@,
                    None => match spec_universal_index(profile.libraries@, self.prefix_text(), 0) {
                        Some(i) => profile.libraries@[i].name@,
                        None => Seq::empty(),
                    },
                };
                replace_first(self.spec_library_file(coordinate), ".jar"@, "-clientdata.lzma"@)
            } else {
                spec_unquote(entry.client@)
            },
            None => {
                let libraries = self.spec_libraries_dir();
                replace_all(
                    replace_all(
                        replace_all(
                            replace_all(
                                replace_all(
                                    replace_all(arg, "{SIDE}"@, "client"@),
                                    "{ROOT}"@,
                                    self.loader_dir_text(),
                                ),
                                "{MINECRAFT_JAR}"@,
                                self.jar_text(),
                            ),
                            "{MINECRAFT_VERSION}"@,
                            self.json_text(),
                        ),
                        "{INSTALLER}"@,
                        libraries,
                    ),
                    "{LIBRARY_DIR}"@,
                    libraries,
                )
            },
        }
    }

    /// A `[coordinate]` argument as the path of the library; any other argument unchanged.
    pub open spec fn spec_compute_path(&self, arg: Seq<char>) -> Seq<char> {
        if arg.len() > 0 && arg[0] == '[' {
            self.spec_library_file(spec_strip_brackets(arg))
        } else {
            arg
        }
    }

    /// A patcher for an installation.
    pub fn new(config: &'a InstallConfig, universal_prefix: &'a str) -> (r: Self)
        ensures
            r.loader_dir_text() == config.loader_dir@,
            r.prefix_text() == universal_prefix@,
            r.jar_text() == config.minecraft_jar@,
            r.json_text() == config.minecraft_json@,
    {
        Self { config, universal_prefix }
    }

    fn libraries_dir(&self) -> (r: String)
        ensures
            r@ == self.spec_libraries_dir(),
    {
        path_join(self.config.loader_dir.as_str(), "libraries")
    }

    /// Where a library lives under the libraries directory.
    pub fn library_file(&self, coordinate: &str) -> (r: String)
        ensures
            r@ == self.spec_library_file(coordinate@),
    {
        let info = library_path(coordinate, None, None);
        let dir = path_join(self.libraries_dir().as_str(), info.path.as_str());
        path_join(dir.as_str(), info.name.as_str())
    }

    fn universal_name(&self, libraries: &Vec<Library>) -> (r: Option<String>)
        ensures
            match spec_universal_index(libraries@, self.prefix_text(), 0) {
                Some(i) => r matches Some(n) && n@ == libraries@[i].name@,
                None => r is None,
            },
    {
        let prefix = chars_of(self.universal_prefix);
        let mut i: usize = 0;
        while i < libraries.len()
            invariant
                i <= libraries.len(),
                prefix@ == self.prefix_text(),
                spec_universal_index(libraries@, self.prefix_text(), 0) == spec_universal_index(
                    libraries@,
                    self.prefix_text(),
                    i as int,
                ),
            decreases libraries.len() - i,
        {
            if starts_with_exec(&chars_of(libraries[i].name.as_str()), &prefix) {
                return Some(libraries[i].name.clone());
            }
            i = i + 1;
        }
        None
    }

    /// What an installer argument becomes.
    pub fn set_argument(&self, arg: &str, profile: &InstallSection) -> (r: String)
        ensures
            r@ == self.spec_set_argument(arg@, *profile),
    {
        let key = strip_braces(arg);
        match key_index(&profile.data, key.as_str()) {
            Some(i) => {
                proof {
                    lemma_key_index_from(profile.data@, key@, 0);
                }
                if str_eq(key.as_str(), "BINPATCH") {
                    let coordinate = match &profile.path {
                        Some(p) => p.clone(),
                        None => match self.universal_name(&profile.libraries) {
                            Some(n) => n,
                            None => String::new(),
                        },
                    };
                    let jar = self.library_file(coordinate.as_str());
                    proof {
                        reveal_strlit(".jar");
                    }
                    let patched = replace_first_exec(
                        &chars_of(jar.as_str()),
                        &chars_of(".jar"),
                        &chars_of("-clientdata.lzma"),
                    );
                    return string_of(&patched);
                }
                return unquote(profile.data[i].1.client.as_str());
            },
            None => {},
        }
        let libraries = chars_of(self.libraries_dir().as_str());
        proof {
            reveal_strlit("{SIDE}");
            reveal_strlit("{ROOT}");
            reveal_strlit("{MINECRAFT_JAR}");
            reveal_strlit("{MINECRAFT_VERSION}");
            reveal_strlit("{INSTALLER}");
            reveal_strlit("{LIBRARY_DIR}");
        }
        let a = replace_all_exec(&chars_of(arg), &chars_of("{SIDE}"), &chars_of("client"));
        let b = replace_all_exec(&a, &chars_of("{ROOT}"), &chars_of(self.config.loader_dir.as_str()));
        let c = replace_all_exec(
            &b,
            &chars_of("{MINECRAFT_JAR}"),
            &chars_of(self.config.minecraft_jar.as_str()),
        );
        let d = replace_all_exec(
            &c,
            &chars_of("{MINECRAFT_VERSION}"),
            &chars_of(self.config.minecraft_json.as_str()),
        );
        let e = replace_all_exec(&d, &chars_of("{INSTALLER}"), &libraries);
        let f = replace_all_exec(&e, &chars_of("{LIBRARY_DIR}"), &libraries);
        string_of(&f)
    }

    /// A `[coordinate]` argument as the path of the library.
    pub fn compute_path(&self, arg: &str) -> (r: String)
        ensures
            r@ == self.spec_compute_path(arg@),
    {
        let a = chars_of(arg);
        if a.len() > 0 && a[0] == '[' {
            let coordinate = strip_brackets(arg);
            return self.library_file(coordinate.as_str());
        }
        arg.to_owned()
    }

    /// The files the client-side processors write: the library files of the data entries
    /// their arguments name (the binary patch aside), without repeats.
    pub open spec fn spec_outputs_after(&self, profile: InstallSection, n: int) -> Seq<Seq<char>>
        decreases n,
    {
        if n <= 0 {
            Seq::empty()
        } else {
            let prev = self.spec_outputs_after(profile, n - 1);
            let p = profile.processors@[n - 1];
            if spec_runs_on_client(p) {
                self.spec_processor_outputs(profile, p, prev, p.args@.len() as int)
            } else {
                prev
            }
        }
    }

    /// The outputs after the first `k` arguments of a processor, added to `acc`.
    pub open spec fn spec_processor_outputs(
        &self,
        profile: InstallSection,
        p: Processor,
        acc: Seq<Seq<char>>,
        k: int,
    ) -> Seq<Seq<char>>
        decreases k,
    {
        if k <= 0 {
            acc
        } else {
            let prev = self.spec_processor_outputs(profile, p, acc, k - 1);
            let key = spec_strip_braces(p.args@[k - 1]@);
            match lookup(profile.data@, key) {
                Some(entry) if key != "BINPATCH"@ => {
                    let file = self.spec_library_file(spec_strip_brackets(entry.client@));
                    if prev.contains(file) {
                        prev
                    } else {
                        prev.push(file)
                    }
                },
                _ => prev,
            }
        }
    }

    fn runs_on_client(p: &Processor) -> (r: bool)
        ensures
            r == spec_runs_on_client(*p),
    {
        match &p.sides {
            None => true,
            Some(sides) => contains_string(sides, "client"),
        }
    }

    /// The files the client-side processors produce.
    pub fn outputs(&self, profile: &InstallSection) -> (r: Vec<String>)
        ensures
            string_views(r@) == self.spec_outputs_after(*profile, profile.processors@.len() as int),
    {
        let mut files: Vec<String> = Vec::new();
        let mut i: usize = 0;
        while i < profile.processors.len()
            invariant
                i <= profile.processors.len(),
                string_views(files@) == self.spec_outputs_after(*profile, i as int),
            decreases profile.processors.len() - i,
        {
            let p = &profile.processors[i];
            if Self::runs_on_client(p) {
                let ghost acc = string_views(files@);
                let mut k: usize = 0;
                while k < p.args.len()
                    invariant
                        k <= p.args.len(),
                        *p == profile.processors@[i as int],
                        string_views(files@) == self.spec_processor_outputs(*profile, *p, acc, k as int),
                    decreases p.args.len() - k,
                {
                    let key = strip_braces(p.args[k].as_str());
                    match key_index(&profile.data, key.as_str()) {
                        Some(j) => {
                            proof {
                                lemma_key_index_from(profile.data@, key@, 0);
                            }
                            if !str_eq(key.as_str(), "BINPATCH") {
                                let coordinate = strip_brackets(profile.data[j].1.client.as_str());
                                let file = self.library_file(coordinate.as_str());
                                let ghost before = files@;
                                if !contains_string(&files, file.as_str()) {
                                    files.push(file);
                                    assert(string_views(files@) =~= string_views(before).push(
                                        self.spec_library_file(spec_strip_brackets(profile.data@[j as int].1.client@)),
                                    ));
                                }
                            }
                        },
                        None => {},
                    }
                    k = k + 1;
                }
            }
            i = i + 1;
        }
        files
    }

    /// Whether every file the client-side processors produce is among `present`.
    pub open spec fn spec_check(&self, profile: InstallSection, present: Seq<Seq<char>>) -> bool {
        forall|k: int|
            0 <= k < self.spec_outputs_after(profile, profile.processors@.len() as int).len()
                ==> present.contains(
                #[trigger] self.spec_outputs_after(profile, profile.processors@.len() as int)[k],
            )
    }

    /// Processors that do not run on the client produce nothing.
    pub proof fn lemma_server_only_outputs(&self, profile: InstallSection, n: int)
        requires
            0 <= n <= profile.processors@.len(),
            forall|i: int| 0 <= i < n ==> !spec_runs_on_client(#[trigger] profile.processors@[i]),
        ensures
            self.spec_outputs_after(profile, n).len() == 0,
        decreases n,
    {
        if n > 0 {
            self.lemma_server_only_outputs(profile, n - 1);
        }
    }

    /// Whether every file the client-side processors produce is among `present`, the files
    /// found on disk.
    pub fn check(&self, profile: &InstallSection, present: &Vec<String>) -> (r: bool)
        ensures
            r == self.spec_check(*profile, string_views(present@)),
    {
        let outputs = self.outputs(profile);
        let ghost want = string_views(outputs@);
        let mut i: usize = 0;
        while i < outputs.len()
            invariant
                i <= outputs.len(),
                want == string_views(outputs@),
                want == self.spec_outputs_after(*profile, profile.processors@.len() as int),
                forall|k: int| 0 <= k < i ==> string_views(present@).contains(#[trigger] want[k]),
            decreases outputs.len() - i,
        {
            if !contains_string(present, outputs[i].as_str()) {
                assert(!string_views(present@).contains(want[i as int]));
                return false;
            }
            i = i + 1;
        }
        true
    }

    /// What a processor is run with, or `None` when it does not run on the client.
    pub fn processor_run(&self, processor: &Processor, profile: &InstallSection) -> (r: Option<ProcessorRun>)
        ensures
            !spec_runs_on_client(*processor) ==> r is None,
            spec_runs_on_client(*processor) ==> (r matches Some(run) && {
                &&& run.jar@ == self.spec_library_file(processor.jar@)
                &&& string_views(run.args@) == string_views(processor.args@).map_values(
                    |a: Seq<char>| self.spec_compute_path(self.spec_set_argument(a, *profile)),
                )
                &&& string_views(run.classpath@) == seq![self.spec_library_file(processor.jar@)]
                    + string_views(processor.classpath@).map_values(
                    |c: Seq<char>| self.spec_library_file(c),
                )
            }),
    {
        if !Self::runs_on_client(processor) {
            return None;
        }
        let jar = self.library_file(processor.jar.as_str());
        let mut args: Vec<String> = Vec::new();
        let mut i: usize = 0;
        while i < processor.args.len()
            invariant
                i <= processor.args.len(),
                string_views(args@) == string_views(processor.args@).subrange(0, i as int).map_values(
                    |a: Seq<char>| self.spec_compute_path(self.spec_set_argument(a, *profile)),
                ),
            decreases processor.args.len() - i,
        {
            let set = self.set_argument(processor.args[i].as_str(), profile);
            let computed = self.compute_path(set.as_str());
            let ghost before = args@;
            args.push(computed);
            assert(string_views(processor.args@).subrange(0, i + 1) =~= string_views(
                processor.args@,
            ).subrange(0, i as int).push(processor.args@[i as int]@));
            assert(string_views(args@) =~= string_views(before).push(computed@));
            i = i + 1;
        }
        assert(string_views(processor.args@).subrange(0, processor.args@.len() as int)
            =~= string_views(processor.args@));
        let mut classpath: Vec<String> = Vec::new();
        classpath.push(jar.clone());
        let mut j: usize = 0;
        while j < processor.classpath.len()
            invariant
                j <= processor.classpath.len(),
                string_views(classpath@) == seq![jar@] + string_views(processor.classpath@).subrange(
                    0,
                    j as int,
                ).map_values(|c: Seq<char>| self.spec_library_file(c)),
            decreases processor.classpath.len() - j,
        {
            let file = self.library_file(processor.classpath[j].as_str());
            let ghost before = classpath@;
            classpath.push(file);
            assert(string_views(processor.classpath@).subrange(0, j + 1) =~= string_views(
                processor.classpath@,
            ).subrange(0, j as int).push(processor.classpath@[j as int]@));
            assert(string_views(classpath@) =~= string_views(before).push(file@));
            j = j + 1;
        }
        assert(string_views(processor.classpath@).subrange(0, processor.classpath@.len() as int)
            =~= string_views(processor.classpath@));
        Some(ProcessorRun { jar, args, classpath })
    }
}

impl ProcessorRun {
    /// The Java arguments that run the processor: `-classpath`, the class path joined with the
    /// platform's separator, the main class, then the arguments.
    pub fn command(&self, main_class: &str, platform: Platform) -> (r: Vec<String>)
        ensures
            string_views(r@) == seq![
                "-classpath"@,
                crate::foundation::paths::join(
                    string_views(self.classpath@),
                    if platform == Platform::Windows {
                        ";"@
                    } else {
                        ":"@
                    },
                ),
                main_class@,
            ] + string_views(self.args@),
    {
        let separator = if platform == Platform::Windows {
            ";"
        } else {
            ":"
        };
        let mut r: Vec<String> = Vec::new();
        r.push("-classpath".to_owned());
        r.push(string_of(&join_strings(&self.classpath, separator)));
        r.push(main_class.to_owned());
        let ghost head = string_views(r@);
        let mut i: usize = 0;
        while i < self.args.len()
            invariant
                i <= self.args.len(),
                string_views(r@) == head + string_views(self.args@).subrange(0, i as int),
            decreases self.args.len() - i,
        {
            let ghost before = r@;
            r.push(self.args[i].clone());
            assert(string_views(r@) =~= string_views(before).push(self.args@[i as int]@));
            assert(string_views(self.args@).subrange(0, i + 1) =~= string_views(self.args@).subrange(
                0,
                i as int,
            ).push(self.args@[i as int]@));
            i = i + 1;
        }
        assert(string_views(self.args@).subrange(0, self.args@.len() as int) =~= string_views(
            self.args@,
        ));
        r
    }
}

/// The check passes once every output of the processors is on disk, and a profile whose
/// processors all run on the server passes with nothing on disk.
pub proof fn law_check_after_outputs(patcher: Patcher, profile: InstallSection, present: Seq<Seq<char>>)
    ensures
        patcher.spec_check(profile, patcher.spec_outputs_after(profile, profile.processors@.len() as int)),
        (forall|i: int| 0 <= i < profile.processors@.len() ==> !spec_runs_on_client(
            #[trigger] profile.processors@[i],
        )) ==> patcher.spec_check(profile, present),
{
    let outs = patcher.spec_outputs_after(profile, profile.processors@.len() as int);
    assert forall|k: int| 0 <= k < outs.len() implies outs.contains(#[trigger] outs[k]) by {}
    if forall|i: int| 0 <= i < profile.processors@.len() ==> !spec_runs_on_client(
        #[trigger] profile.processors@[i],
    ) {
        patcher.lemma_server_only_outputs(profile, profile.processors@.len() as int);
    }
}

} // verus!
