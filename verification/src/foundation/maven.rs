use std::str::FromStr;

use vstd::prelude::*;

use super::text::{
    chars_of, has_char, lemma_rfind_char, lemma_rfind_char_absent, lemma_rfind_char_before, lemma_split_join, lemma_split_no_sep, lemma_split_nonempty, lemma_split_pieces_no_sep, push_all, replace_all, replace_all_exec, replace_first, replace_first_exec, rfind_char, rfind_char_exec, slice, split, split_chars, string_of, views,
};

verus! {

/// A Maven coordinate, `group:artifact:version[:classifier][@extension]`.
#[derive(Debug, Clone, PartialEq, Eq)]
pub struct MavenCoordinate {
    pub group: String,
    pub artifact: String,
    pub version: String,
    pub classifier: Option<String>,
    pub extension: String,
}

/// A coordinate that does not have the `group:artifact:version` shape; holds the input.
#[derive(Debug, Clone, PartialEq, Eq)]
pub struct ParseError(pub String);

/// The parts of a coordinate, as text.
pub struct CoordinateView {
    pub group: Seq<char>,
    pub artifact: Seq<char>,
    pub version: Seq<char>,
    pub classifier: Option<Seq<char>>,
    pub extension: Seq<char>,
}

impl MavenCoordinate {
    pub open spec fn view_parts(&self) -> CoordinateView {
        CoordinateView {
            group: self.group@,
            artifact: self.artifact@,
            version: self.version@,
            classifier: match self.classifier {
                Some(c) => Some(c@),
                None => None,
            },
            extension: self.extension@,
        }
    }
}

/// The body of a coordinate and its extension: what follows the last `@`, when that is not
/// empty, else `jar`.
pub open spec fn body_and_extension(s: Seq<char>) -> (Seq<char>, Seq<char>) {
    match rfind_char(s, '@') {
        Some(i) if i + 1 < s.len() => (s.subrange(0, i), s.subrange(i + 1, s.len() as int)),
        _ => (s, "jar"@),
    }
}

/// The coordinate that `s` spells: the body splits on `:` into a non-empty group, artifact and
/// version, then an optional classifier (kept only when not empty), and nothing more.
pub open spec fn spec_parse_coordinate(s: Seq<char>) -> Option<CoordinateView> {
    let (body, extension) = body_and_extension(s);
    let parts = split(body, ':');
    if parts.len() < 3 || parts.len() > 4 || parts[0].len() == 0 || parts[1].len() == 0
        || parts[2].len() == 0 {
        None
    } else {
        Some(
            CoordinateView {
                group: parts[0],
                artifact: parts[1],
                version: parts[2],
                classifier: if parts.len() == 4 && parts[3].len() > 0 {
                    Some(parts[3])
                } else {
                    None
                },
                extension,
            },
        )
    }
}

/// `artifact-version[-classifier].extension`.
pub open spec fn spec_file_name(c: CoordinateView) -> Seq<char> {
    match c.classifier {
        Some(cl) => c.artifact + "-"@ + c.version + "-"@ + cl + "."@ + c.extension,
        None => c.artifact + "-"@ + c.version + "."@ + c.extension,
    }
}

/// `group/with/slashes/artifact/version`.
pub open spec fn spec_directory(c: CoordinateView) -> Seq<char> {
    replace_all(c.group, "."@, "/"@) + "/"@ + c.artifact + "/"@ + c.version
}

/// `group:artifact[:classifier]`.
pub open spec fn spec_key(c: CoordinateView) -> Seq<char> {
    match c.classifier {
        Some(cl) => c.group + ":"@ + c.artifact + ":"@ + cl,
        None => c.group + ":"@ + c.artifact,
    }
}

/// `group:artifact:version[:classifier][@extension]`, the extension written only when it is
/// not `jar`.
pub open spec fn spec_coordinate_text(c: CoordinateView) -> Seq<char> {
    let base = c.group + ":"@ + c.artifact + ":"@ + c.version;
    let with_classifier = match c.classifier {
        Some(cl) => base + ":"@ + cl,
        None => base,
    };
    if c.extension == "jar"@ {
        with_classifier
    } else {
        with_classifier + "@"@ + c.extension
    }
}

fn append_str(r: &mut Vec<char>, s: &str)
    ensures
        final(r)@ == old(r)@ + s@,
{
    let c = chars_of(s);
    push_all(r, &c);
}

/// A coordinate that text can spell: group, artifact and version are not empty, no part holds
/// `:` or `@`, a classifier is not empty, and the extension is not empty.
pub open spec fn spec_well_formed(c: CoordinateView) -> bool {
    &&& c.group.len() > 0 && !c.group.contains(':') && !c.group.contains('@')
    &&& c.artifact.len() > 0 && !c.artifact.contains(':') && !c.artifact.contains('@')
    &&& c.version.len() > 0 && !c.version.contains(':') && !c.version.contains('@')
    &&& c.classifier matches Some(cl) ==> cl.len() > 0 && !cl.contains(':') && !cl.contains('@')
    &&& c.extension.len() > 0 && !c.extension.contains('@')
}

proof fn lemma_no_char_concat(a: Seq<char>, b: Seq<char>, x: char)
    requires
        !a.contains(x),
        !b.contains(x),
    ensures
        !(a + b).contains(x),
{
    if (a + b).contains(x) {
        let k = choose|k: int| 0 <= k < (a + b).len() && (a + b)[k] == x;
        if k < a.len() {
            assert(a[k] == x);
        } else {
            assert(b[k - a.len()] == x);
        }
    }
}

/// Writing a well-formed coordinate and parsing the text gives the coordinate back.
pub proof fn law_coordinate_roundtrip(c: CoordinateView)
    requires
        spec_well_formed(c),
    ensures
        spec_parse_coordinate(spec_coordinate_text(c)) == Some(c),
{
    let colon = seq![':'];
    let base = c.group + colon + c.artifact + colon + c.version;
    assert(c.group + ":"@ + c.artifact + ":"@ + c.version == base) by {
        reveal_strlit(":");
        assert(":"@ =~= colon);
    }
    let body = match c.classifier {
        Some(cl) => base + colon + cl,
        None => base,
    };
    assert(!colon.contains('@'));
    lemma_no_char_concat(c.group, colon, '@');
    lemma_no_char_concat(c.group + colon, c.artifact, '@');
    lemma_no_char_concat(c.group + colon + c.artifact, colon, '@');
    lemma_no_char_concat(c.group + colon + c.artifact + colon, c.version, '@');
    if let Some(cl) = c.classifier {
        lemma_no_char_concat(base, colon, '@');
        lemma_no_char_concat(base + colon, cl, '@');
        assert(base + ":"@ + cl == body) by {
            reveal_strlit(":");
            assert(":"@ =~= colon);
        }
    }
    assert(!body.contains('@'));
    reveal_strlit("jar");
    reveal_strlit("@");
    if c.extension == "jar"@ {
        assert(spec_coordinate_text(c) == body);
        lemma_rfind_char_absent(body, '@');
        assert(body_and_extension(body) == (body, "jar"@));
    } else {
        assert(spec_coordinate_text(c) == body + "@"@ + c.extension);
        assert("@"@ =~= seq!['@']);
        lemma_rfind_char_before(body, '@', c.extension);
        let text = body + seq!['@'] + c.extension;
        assert(text.subrange(0, body.len() as int) =~= body);
        assert(text.subrange(body.len() as int + 1, text.len() as int) =~= c.extension);
        assert(body_and_extension(text) == (body, c.extension));
    }
    lemma_split_no_sep(c.group, ':');
    lemma_split_no_sep(c.artifact, ':');
    lemma_split_no_sep(c.version, ':');
    lemma_split_join(c.group, c.artifact, ':');
    lemma_split_join(c.group + colon + c.artifact, c.version, ':');
    let three = seq![c.group, c.artifact, c.version];
    assert(split(base, ':') =~= three);
    match c.classifier {
        Some(cl) => {
            lemma_split_no_sep(cl, ':');
            lemma_split_join(base, cl, ':');
            assert(split(body, ':') =~= three.push(cl));
        },
        None => {},
    }
}

/// Whether no part of a coordinate but its extension holds an `@`.
pub open spec fn spec_parts_without_at(c: CoordinateView) -> bool {
    &&& !c.group.contains('@')
    &&& !c.artifact.contains('@')
    &&& !c.version.contains('@')
    &&& c.classifier matches Some(cl) ==> !cl.contains('@')
}

/// A coordinate read from text is written back as text that reads as the same coordinate,
/// when no part of it but the extension holds an `@`.
pub proof fn law_parse_print_roundtrip(s: Seq<char>)
    requires
        spec_parse_coordinate(s) is Some,
        spec_parts_without_at(spec_parse_coordinate(s).unwrap()),
    ensures
        spec_parse_coordinate(spec_coordinate_text(spec_parse_coordinate(s).unwrap()))
            == spec_parse_coordinate(s),
{
    let c = spec_parse_coordinate(s).unwrap();
    let (body, extension) = body_and_extension(s);
    let parts = split(body, ':');
    lemma_split_pieces_no_sep(body, ':');
    assert(!parts[0].contains(':') && !parts[1].contains(':') && !parts[2].contains(':'));
    if parts.len() == 4 {
        assert(!parts[3].contains(':'));
    }
    lemma_rfind_char(s, '@');
    reveal_strlit("jar");
    match rfind_char(s, '@') {
        Some(i) if i + 1 < s.len() => {
            assert(extension =~= s.subrange(i + 1, s.len() as int));
            assert(!extension.contains('@')) by {
                if extension.contains('@') {
                    let j = choose|j: int| 0 <= j < extension.len() && extension[j] == '@';
                    assert(s[i + 1 + j] == '@');
                }
            }
        },
        _ => {
            assert(extension == "jar"@);
            assert(!extension.contains('@')) by {
                if extension.contains('@') {
                    let j = choose|j: int| 0 <= j < extension.len() && extension[j] == '@';
                    assert(extension[j] != '@');
                }
            }
        },
    }
    assert(spec_well_formed(c));
    law_coordinate_roundtrip(c);
}

impl MavenCoordinate {
    /// Parses `group:artifact:version[:classifier][@extension]`.
    pub fn parse(input: &str) -> (r: Result<Self, ParseError>)
        ensures
            r matches Ok(c) ==> spec_parse_coordinate(input@) == Some(c.view_parts()),
            r matches Err(e) ==> spec_parse_coordinate(input@) is None && e.0@ == input@,
    {
        let s = chars_of(input);
        let (body, extension) = match rfind_char_exec(&s, '@') {
            Some(i) => {
                proof { lemma_rfind_char(s@, '@'); }
                if i + 1 < s.len() {
                    (slice(&s, 0, i), slice(&s, i + 1, s.len()))
                } else {
                    (s.clone(), chars_of("jar"))
                }
            },
            None => (s.clone(), chars_of("jar")),
        };
        assert(body@ == body_and_extension(s@).0 && extension@ == body_and_extension(s@).1);
        let parts = split_chars(&body, ':');
        proof { lemma_split_nonempty(body@, ':'); }
        assert(parts@.len() == split(body@, ':').len());
        if parts.len() < 3 || parts.len() > 4 || parts[0].len() == 0 || parts[1].len() == 0
            || parts[2].len() == 0 {
            proof {
                if parts@.len() >= 3 {
                    assert(views(parts@)[0] == parts@[0]@);
                    assert(views(parts@)[1] == parts@[1]@);
                    assert(views(parts@)[2] == parts@[2]@);
                }
            }
            return Err(ParseError(input.to_owned()));
        }
        assert(views(parts@)[0] == parts@[0]@);
        assert(views(parts@)[1] == parts@[1]@);
        assert(views(parts@)[2] == parts@[2]@);
        let classifier = if parts.len() == 4 && parts[3].len() > 0 {
            assert(views(parts@)[3] == parts@[3]@);
            Some(string_of(&parts[3]))
        } else {
            proof {
                if parts@.len() == 4 {
                    assert(views(parts@)[3] == parts@[3]@);
                }
            }
            None
        };
        Ok(
            Self {
                group: string_of(&parts[0]),
                artifact: string_of(&parts[1]),
                version: string_of(&parts[2]),
                classifier,
                extension: string_of(&extension),
            },
        )
    }

    /// `artifact-version[-classifier].extension`.
    pub fn file_name(&self) -> (r: String)
        ensures
            r@ == spec_file_name(self.view_parts()),
    {
        let mut r = chars_of(self.artifact.as_str());
        append_str(&mut r, "-");
        append_str(&mut r, self.version.as_str());
        match &self.classifier {
            Some(classifier) => {
                append_str(&mut r, "-");
                append_str(&mut r, classifier.as_str());
            },
            None => {},
        }
        append_str(&mut r, ".");
        append_str(&mut r, self.extension.as_str());
        string_of(&r)
    }

    /// The repository directory of the artifact: the group with `/` for `.`, then the artifact
    /// and the version.
    pub fn directory(&self) -> (r: String)
        ensures
            r@ == spec_directory(self.view_parts()),
    {
        let group = chars_of(self.group.as_str());
        proof {
            reveal_strlit(".");
        }
        let mut r = replace_all_exec(&group, &chars_of("."), &chars_of("/"));
        append_str(&mut r, "/");
        append_str(&mut r, self.artifact.as_str());
        append_str(&mut r, "/");
        append_str(&mut r, self.version.as_str());
        string_of(&r)
    }

    /// The path of the artifact in a Maven repository.
    pub fn path(&self) -> (r: String)
        ensures
            r@ == spec_directory(self.view_parts()) + "/"@ + spec_file_name(self.view_parts()),
    {
        let mut r = chars_of(self.directory().as_str());
        append_str(&mut r, "/");
        append_str(&mut r, self.file_name().as_str());
        string_of(&r)
    }

    /// The identity of the artifact regardless of its version: `group:artifact[:classifier]`.
    pub fn key(&self) -> (r: String)
        ensures
            r@ == spec_key(self.view_parts()),
    {
        let mut r = chars_of(self.group.as_str());
        append_str(&mut r, ":");
        append_str(&mut r, self.artifact.as_str());
        match &self.classifier {
            Some(classifier) => {
                append_str(&mut r, ":");
                append_str(&mut r, classifier.as_str());
            },
            None => {},
        }
        string_of(&r)
    }

    /// The coordinate written back as text.
    pub fn to_string(&self) -> (r: String)
        ensures
            r@ == spec_coordinate_text(self.view_parts()),
    {
        let mut r = chars_of(self.group.as_str());
        append_str(&mut r, ":");
        append_str(&mut r, self.artifact.as_str());
        append_str(&mut r, ":");
        append_str(&mut r, self.version.as_str());
        match &self.classifier {
            Some(classifier) => {
                append_str(&mut r, ":");
                append_str(&mut r, classifier.as_str());
            },
            None => {},
        }
        let ext = chars_of(self.extension.as_str());
        if !super::text::eq_exec(&ext, &chars_of("jar")) {
            append_str(&mut r, "@");
            push_all(&mut r, &ext);
        }
        string_of(&r)
    }
}

impl FromStr for MavenCoordinate {
    type Err = ParseError;

    fn from_str(input: &str) -> (r: Result<Self, Self::Err>)
        ensures
            r matches Ok(c) ==> spec_parse_coordinate(input@) == Some(c.view_parts()),
            r matches Err(e) ==> spec_parse_coordinate(input@) is None && e.0@ == input@,
    {
        Self::parse(input)
    }
}


/// Where a library lives under a `libraries` directory: its folder, file name and version.
#[derive(Debug, Clone, PartialEq, Eq)]
pub struct LibraryPath {
    pub path: String,
    pub name: String,
    pub version: String,
}

/// The `i`-th `:`-separated part of `main`, empty when there is none.
pub open spec fn part_or_empty(parts: Seq<Seq<char>>, i: int) -> Seq<char> {
    if i < parts.len() {
        parts[i]
    } else {
        Seq::<char>::empty()
    }
}

/// The version, followed by `-classifier` when the coordinate has a fourth part.
pub open spec fn spec_base_file_name(main: Seq<char>) -> Seq<char> {
    let parts = split(main, ':');
    if parts.len() > 3 {
        part_or_empty(parts, 2) + "-"@ + parts[3]
    } else {
        part_or_empty(parts, 2)
    }
}

/// The file name after the artifact: the first `@` becomes the extension dot; without one, the
/// native suffix and the extension (`.jar` by default) are appended.
pub open spec fn spec_final_file_name(
    main: Seq<char>,
    native_suffix: Option<Seq<char>>,
    force_ext: Option<Seq<char>>,
) -> Seq<char> {
    let file_name = spec_base_file_name(main);
    if file_name.contains('@') {
        replace_first(file_name, "@"@, "."@)
    } else {
        file_name + (match native_suffix {
            Some(s) => s,
            None => Seq::<char>::empty(),
        }) + (match force_ext {
            Some(e) => e,
            None => ".jar"@,
        })
    }
}

/// The directory, file name and version of a library named `main`.
pub open spec fn spec_library_path(
    main: Seq<char>,
    native_suffix: Option<Seq<char>>,
    force_ext: Option<Seq<char>>,
) -> (Seq<char>, Seq<char>, Seq<char>) {
    let parts = split(main, ':');
    let group = part_or_empty(parts, 0);
    let artifact = part_or_empty(parts, 1);
    let version = part_or_empty(parts, 2);
    let version_dir = split(version, '@')[0];
    (
        replace_all(group, "."@, "/"@) + "/"@ + artifact + "/"@ + version_dir,
        artifact + "-"@ + spec_final_file_name(main, native_suffix, force_ext),
        version,
    )
}

fn part_or_empty_exec(parts: &Vec<Vec<char>>, i: usize) -> (r: Vec<char>)
    ensures
        r@ == part_or_empty(views(parts@), i as int),
{
    if i < parts.len() {
        parts[i].clone()
    } else {
        Vec::new()
    }
}

fn opt_chars(o: Option<&str>) -> (r: Option<Vec<char>>)
    ensures
        o matches Some(s) ==> r matches Some(v) && v@ == s@,
        o is None ==> r is None,
{
    match o {
        Some(s) => Some(chars_of(s)),
        None => None,
    }
}

/// The directory (relative to `libraries`), file name and version of a library;
/// `native_suffix` goes before the extension and
/// `force_ext` replaces `.jar`.
pub fn library_path(main: &str, native_suffix: Option<&str>, force_ext: Option<&str>) -> (r: LibraryPath)
    ensures
        (r.path@, r.name@, r.version@) == spec_library_path(
            main@,
            match native_suffix {
                Some(s) => Some(s@),
                None => None,
            },
            match force_ext {
                Some(e) => Some(e@),
                None => None,
            },
        ),
{
    let m = chars_of(main);
    let parts = split_chars(&m, ':');
    let group = part_or_empty_exec(&parts, 0);
    let artifact = part_or_empty_exec(&parts, 1);
    let version = part_or_empty_exec(&parts, 2);
    let mut file_name = version.clone();
    if parts.len() > 3 {
        append_str(&mut file_name, "-");
        push_all(&mut file_name, &parts[3]);
        assert(views(parts@)[3] == parts@[3]@);
    }
    assert(file_name@ == spec_base_file_name(m@));
    let ghost ns = match native_suffix {
        Some(s) => Some(s@),
        None => None::<Seq<char>>,
    };
    let ghost fe = match force_ext {
        Some(e) => Some(e@),
        None => None::<Seq<char>>,
    };
    let final_name = if has_char(&file_name, '@') {
        proof {
            reveal_strlit("@");
            reveal_strlit(".");
        }
        replace_first_exec(&file_name, &chars_of("@"), &chars_of("."))
    } else {
        let mut f = file_name.clone();
        match native_suffix {
            Some(suffix) => append_str(&mut f, suffix),
            None => {},
        }
        match force_ext {
            Some(ext) => append_str(&mut f, ext),
            None => append_str(&mut f, ".jar"),
        }
        assert(f@ =~= spec_final_file_name(m@, ns, fe));
        f
    };
    let version_parts = split_chars(&version, '@');
    proof { lemma_split_nonempty(version@, '@'); }
    assert(views(version_parts@)[0] == version_parts@[0]@);
    proof {
        reveal_strlit(".");
    }
    let mut path = replace_all_exec(&group, &chars_of("."), &chars_of("/"));
    append_str(&mut path, "/");
    push_all(&mut path, &artifact);
    append_str(&mut path, "/");
    push_all(&mut path, &version_parts[0]);
    let mut name = artifact.clone();
    append_str(&mut name, "-");
    push_all(&mut name, &final_name);
    LibraryPath { path: string_of(&path), name: string_of(&name), version: string_of(&version) }
}

impl LibraryPath {
    /// `path/name`.
    pub fn full(&self) -> (r: String)
        ensures
            r@ == self.path@ + "/"@ + self.name@,
    {
        let mut r = chars_of(self.path.as_str());
        append_str(&mut r, "/");
        append_str(&mut r, self.name.as_str());
        string_of(&r)
    }
}

} // verus!
