use vstd::prelude::*;

use crate::foundation::maven::{
    law_coordinate_roundtrip, spec_coordinate_text, spec_parse_coordinate, CoordinateView, MavenCoordinate,
};
use crate::foundation::os::Platform;
use crate::foundation::rules::duplicate_rules;
use crate::foundation::text::{
    chars_of, decimal_value, find, find_exec, is_digit, lemma_find, lemma_split_join, lemma_split_no_sep, parse_u64, unsigned_digits, parse_u64_exec, push_all, slice, split, split_chars, str_eq, string_of, views,
};
use crate::providers::launchermeta::{
    Artifact, Library, LibraryDownloads, LibraryModel,
};

verus! {

/// The first JNA release that runs natively on Apple Silicon.
pub const JNA_MIN_VERSION: [u64; 3] = [5, 13, 0];

/// The JNA 5.13.0 artifact that replaces older ones on macOS.
pub const JNA_NAME: &'static str = "net.java.dev.jna:jna:5.13.0";
pub const JNA_PATH: &'static str = "net/java/dev/jna/jna/5.13.0/jna-5.13.0.jar";
pub const JNA_SHA1: &'static str = "1200e7ebeedbe0d10062093f32925a912020e747";
pub const JNA_SIZE: u64 = 1879325;
pub const JNA_URL: &'static str =
    "https://libraries.minecraft.net/net/java/dev/jna/jna/5.13.0/jna-5.13.0.jar";

/// The JNA Platform 5.13.0 artifact that replaces older ones on macOS.
pub const JNA_PLATFORM_NAME: &'static str = "net.java.dev.jna:jna-platform:5.13.0";
pub const JNA_PLATFORM_PATH: &'static str =
    "net/java/dev/jna/jna-platform/5.13.0/jna-platform-5.13.0.jar";
pub const JNA_PLATFORM_SHA1: &'static str = "88e9a306715e9379f3122415ef4ae759a352640d";
pub const JNA_PLATFORM_SIZE: u64 = 1363209;
pub const JNA_PLATFORM_URL: &'static str =
    "https://libraries.minecraft.net/net/java/dev/jna/jna-platform/5.13.0/jna-platform-5.13.0.jar";

// ---------------------------------------------------------------------------------------------
// Version comparison.

/// The number a dot-separated version part starts with; zero when it does not start with a
/// digit or the number does not fit.
pub open spec fn spec_part_number(part: Seq<char>) -> u64 {
    match parse_u64(part.subrange(0, leading_digits(part, 0))) {
        Some(v) => v,
        None => 0,
    }
}

/// The index after the run of digits of `s` that starts at `i`.
pub open spec fn leading_digits(s: Seq<char>, i: int) -> int
    decreases s.len() - i,
{
    if 0 <= i < s.len() && is_digit(s[i]) {
        leading_digits(s, i + 1)
    } else {
        i
    }
}

/// The `i`-th number of a dotted version, zero when the version has fewer parts.
pub open spec fn spec_version_number(version: Seq<char>, i: int) -> u64 {
    let parts = split(version, '.');
    if i < parts.len() {
        spec_part_number(parts[i])
    } else {
        0
    }
}

/// Whether the first three numbers of a dotted version come before `(m0, m1, m2)`.
pub open spec fn spec_version_below(version: Seq<char>, m0: u64, m1: u64, m2: u64) -> bool {
    let a = spec_version_number(version, 0);
    let b = spec_version_number(version, 1);
    let c = spec_version_number(version, 2);
    a < m0 || (a == m0 && (b < m1 || (b == m1 && c < m2)))
}

proof fn lemma_leading_digits(s: Seq<char>, i: int)
    requires
        0 <= i <= s.len(),
    ensures
        i <= leading_digits(s, i) <= s.len(),
        forall|k: int| i <= k < leading_digits(s, i) ==> is_digit(#[trigger] s[k]),
    decreases s.len() - i,
{
    if i < s.len() && is_digit(s[i]) {
        lemma_leading_digits(s, i + 1);
    }
}

fn part_number(part: &Vec<char>) -> (r: u64)
    ensures
        r == spec_part_number(part@),
{
    let mut e: usize = 0;
    while e < part.len() && part[e] >= '0' && part[e] <= '9'
        invariant
            e <= part.len(),
            leading_digits(part@, 0) == leading_digits(part@, e as int),
        decreases part.len() - e,
    {
        e = e + 1;
    }
    let digits = slice(part, 0, e);
    match parse_u64_exec(&digits) {
        Some(v) => v,
        None => 0,
    }
}

fn version_number(parts: &Vec<Vec<char>>, i: usize) -> (r: u64)
    ensures
        i < parts@.len() ==> r == spec_part_number(parts@[i as int]@),
        i >= parts@.len() ==> r == 0,
{
    if i < parts.len() {
        part_number(&parts[i])
    } else {
        0
    }
}

/// Whether the first three numbers of a version, given as characters, come before `minimum`.
pub fn version_below_chars(version: &Vec<char>, minimum: [u64; 3]) -> (r: bool)
    ensures
        r == spec_version_below(version@, minimum@[0], minimum@[1], minimum@[2]),
{
    let parts = split_chars(version, '.');
    assert(views(parts@)[0] == parts@[0]@ || parts@.len() == 0);
    let a = version_number(&parts, 0);
    let b = version_number(&parts, 1);
    let c = version_number(&parts, 2);
    proof {
        if parts@.len() > 0 {
            assert(views(parts@)[0] == parts@[0]@);
        }
        if parts@.len() > 1 {
            assert(views(parts@)[1] == parts@[1]@);
        }
        if parts@.len() > 2 {
            assert(views(parts@)[2] == parts@[2]@);
        }
    }
    a < minimum[0] || (a == minimum[0] && (b < minimum[1] || (b == minimum[1] && c
        < minimum[2])))
}

/// Whether the first three numbers of a dotted version (each read from its leading digits)
/// come before `minimum`.
pub fn version_below(version: &str, minimum: [u64; 3]) -> (r: bool)
    ensures
        r == spec_version_below(version@, minimum@[0], minimum@[1], minimum@[2]),
{
    version_below_chars(&chars_of(version), minimum)
}

// ---------------------------------------------------------------------------------------------
// Arguments that name JNA jars.

/// `.jar`.
pub open spec fn jar_suffix() -> Seq<char> {
    seq!['.', 'j', 'a', 'r']
}

/// Text that can stand for a version: digits and dots, at least one character.
pub open spec fn is_version_text(v: Seq<char>) -> bool {
    v.len() > 0 && forall|i: int| 0 <= i < v.len() ==> is_digit(#[trigger] v[i]) || v[i] == '.'
}

/// A character that continues a word: an ASCII letter or digit, `-` or `_`.
pub open spec fn is_word_char(c: char) -> bool {
    ('a' <= c && c <= 'z') || ('A' <= c && c <= 'Z') || is_digit(c) || c == '-' || c == '_'
}

/// Whether a jar name that starts at `start` begins a word.
pub open spec fn starts_word(s: Seq<char>, start: int) -> bool {
    start == 0 || !is_word_char(s[start - 1])
}

/// Rewrites, from index `from` on, every `<prefix><version>.jar` that begins a word and whose
/// version is below 5.13.0 into `replacement`, scanning left to right and going on after each
/// jar name.
pub open spec fn jna_scan(s: Seq<char>, from: int, prefix: Seq<char>, replacement: Seq<char>) -> Seq<char>
    decreases s.len() - from,
{
    if from < 0 || from > s.len() || prefix.len() == 0 {
        s
    } else {
        match find(s.skip(from), prefix) {
            None => s,
            Some(found) => {
                let start = from + found;
                let vstart = start + prefix.len();
                proof {
                    lemma_find(s.skip(from), prefix);
                }
                match find(s.skip(vstart), jar_suffix()) {
                    None => s,
                    Some(off) => {
                        proof {
                            lemma_find(s.skip(vstart), jar_suffix());
                        }
                        let vend = vstart + off;
                        let token_end = vend + 4;
                        let version = s.subrange(vstart, vend);
                        if is_version_text(version) && starts_word(s, start) && spec_version_below(
                            version,
                            5,
                            13,
                            0,
                        ) {
                            jna_scan(
                                s.subrange(0, start) + replacement + s.skip(token_end),
                                start + replacement.len(),
                                prefix,
                                replacement,
                            )
                        } else {
                            jna_scan(s, token_end, prefix, replacement)
                        }
                    },
                }
            },
        }
    }
}

/// `patch_argument`: on macOS, JNA Platform jar names and then JNA jar names older than 5.13.0
/// are rewritten to the 5.13.0 jars; elsewhere the argument is unchanged.
pub open spec fn spec_patch_argument(argument: Seq<char>, platform: Platform) -> Seq<char> {
    if platform != Platform::MacOs {
        argument
    } else {
        jna_scan(
            jna_scan(argument, 0, "jna-platform-"@, "jna-platform-5.13.0.jar"@),
            0,
            "jna-"@,
            "jna-5.13.0.jar"@,
        )
    }
}

fn is_version_text_exec(v: &Vec<char>) -> (r: bool)
    ensures
        r == is_version_text(v@),
{
    if v.len() == 0 {
        return false;
    }
    let mut i: usize = 0;
    while i < v.len()
        invariant
            i <= v.len(),
            forall|k: int| 0 <= k < i ==> is_digit(#[trigger] v@[k]) || v@[k] == '.',
        decreases v.len() - i,
    {
        let c = v[i];
        if !((c >= '0' && c <= '9') || c == '.') {
            return false;
        }
        i = i + 1;
    }
    true
}

fn starts_word_exec(s: &Vec<char>, start: usize) -> (r: bool)
    requires
        start <= s.len(),
    ensures
        r == starts_word(s@, start as int),
{
    if start == 0 {
        true
    } else {
        let c = s[start - 1];
        !((c >= 'a' && c <= 'z') || (c >= 'A' && c <= 'Z') || (c >= '0' && c <= '9') || c == '-'
            || c == '_')
    }
}

fn jna_scan_exec(s: &Vec<char>, prefix: &Vec<char>, replacement: &Vec<char>) -> (r: Vec<char>)
    requires
        prefix.len() > 0,
    ensures
        r@ == jna_scan(s@, 0, prefix@, replacement@),
{
    let jar: Vec<char> = vec!['.', 'j', 'a', 'r'];
    assert(jar@ == jar_suffix());
    let mut result = s.clone();
    assert(result@ =~= s@);
    let mut search_from: usize = 0;
    loop
        invariant
            prefix.len() > 0,
            jar@ == jar_suffix(),
            search_from <= result.len(),
            jna_scan(result@, search_from as int, prefix@, replacement@) == jna_scan(
                s@,
                0,
                prefix@,
                replacement@,
            ),
        decreases result.len() - search_from,
    {
        let tail = slice(&result, search_from, result.len());
        assert(tail@ =~= result@.skip(search_from as int));
        proof {
            lemma_find(tail@, prefix@);
        }
        let found = match find_exec(&tail, prefix) {
            None => {
                return result;
            },
            Some(found) => found,
        };
        let start = search_from + found;
        let vstart = start + prefix.len();
        let rest = slice(&result, vstart, result.len());
        assert(rest@ =~= result@.skip(vstart as int));
        proof {
            lemma_find(rest@, jar@);
        }
        let off = match find_exec(&rest, &jar) {
            None => {
                return result;
            },
            Some(off) => off,
        };
        let vend = vstart + off;
        let token_end = vend + 4;
        let version = slice(&result, vstart, vend);
        let ok = is_version_text_exec(&version) && starts_word_exec(&result, start)
            && version_below_chars(&version, JNA_MIN_VERSION);
        if ok {
            let mut next = slice(&result, 0, start);
            push_all(&mut next, replacement);
            let resume = next.len();
            let after = slice(&result, token_end, result.len());
            assert(after@ =~= result@.skip(token_end as int));
            push_all(&mut next, &after);
            result = next;
            search_from = resume;
        } else {
            search_from = token_end;
        }
    }
}

/// Rewrites the JNA jar names an argument mentions to the 5.13.0 jars, on macOS.
pub fn patch_argument(argument: &str, platform: Platform) -> (r: String)
    ensures
        r@ == spec_patch_argument(argument@, platform),
{
    if platform != Platform::MacOs {
        return argument.to_owned();
    }
    proof {
        reveal_strlit("jna-platform-");
        reveal_strlit("jna-");
    }
    let arg = chars_of(argument);
    let first = jna_scan_exec(&arg, &chars_of("jna-platform-"), &chars_of("jna-platform-5.13.0.jar"));
    let second = jna_scan_exec(&first, &chars_of("jna-"), &chars_of("jna-5.13.0.jar"));
    string_of(&second)
}

// ---------------------------------------------------------------------------------------------
// Libraries.

/// Which JNA artifact a library is, when it is one that macOS replaces: `Some(true)` for JNA
/// Platform, `Some(false)` for JNA.
pub open spec fn spec_jna_replacement(library: LibraryModel, platform: Platform) -> Option<bool> {
    if platform != Platform::MacOs {
        None
    } else {
        match spec_parse_coordinate(library.name) {
            None => None,
            Some(c) => if c.group != "net.java.dev.jna"@ || c.classifier is Some {
                None
            } else if !spec_version_below(c.version, 5, 13, 0) {
                None
            } else if c.artifact == "jna"@ {
                Some(false)
            } else if c.artifact == "jna-platform"@ {
                Some(true)
            } else {
                None
            },
        }
    }
}

/// Whether `patched` is the 5.13.0 replacement of `library`: the replacement's name and single
/// artifact, the rules of `library`, nothing else.
pub open spec fn is_replacement(library: LibraryModel, patched: LibraryModel, jna_platform: bool) -> bool {
    let (name, path, sha1, size, url) = if jna_platform {
        (JNA_PLATFORM_NAME@, JNA_PLATFORM_PATH@, JNA_PLATFORM_SHA1@, JNA_PLATFORM_SIZE, JNA_PLATFORM_URL@)
    } else {
        (JNA_NAME@, JNA_PATH@, JNA_SHA1@, JNA_SIZE, JNA_URL@)
    };
    &&& patched.name == name
    &&& (patched.downloads matches Some(d) && d.classifiers is None && (d.artifact matches Some(a)
        && a.path == Some(path) && a.sha1 == sha1 && a.size == size && a.url == url))
    &&& patched.natives is None
    &&& patched.rules == library.rules
    &&& patched.extract is None
    &&& patched.url is None
}

/// What `patch` makes of a library: its replacement, or the library itself.
pub open spec fn spec_patched(library: LibraryModel, patched: LibraryModel, platform: Platform) -> bool {
    match spec_jna_replacement(library, platform) {
        Some(jna_platform) => is_replacement(library, patched, jna_platform),
        None => patched == library,
    }
}

/// The library, or on macOS its JNA 5.13.0 replacement when it is an older JNA.
pub fn patch(library: &Library, platform: Platform) -> (r: Library)
    ensures
        spec_patched(library@, r@, platform),
{
    if platform != Platform::MacOs {
        return library.duplicate();
    }
    let coordinate = match MavenCoordinate::parse(library.name.as_str()) {
        Ok(c) => c,
        Err(_) => {
            return library.duplicate();
        },
    };
    if !str_eq(coordinate.group.as_str(), "net.java.dev.jna") || coordinate.classifier.is_some() {
        return library.duplicate();
    }
    let jna_platform = if str_eq(coordinate.artifact.as_str(), "jna") {
        false
    } else if str_eq(coordinate.artifact.as_str(), "jna-platform") {
        true
    } else {
        return library.duplicate();
    };
    if !version_below(coordinate.version.as_str(), JNA_MIN_VERSION) {
        return library.duplicate();
    }
    let (name, path, sha1, size, url) = if jna_platform {
        (JNA_PLATFORM_NAME, JNA_PLATFORM_PATH, JNA_PLATFORM_SHA1, JNA_PLATFORM_SIZE, JNA_PLATFORM_URL)
    } else {
        (JNA_NAME, JNA_PATH, JNA_SHA1, JNA_SIZE, JNA_URL)
    };
    Library {
        name: name.to_owned(),
        downloads: Some(
            LibraryDownloads {
                artifact: Some(
                    Artifact { path: Some(path.to_owned()), sha1: sha1.to_owned(), size, url: url.to_owned() },
                ),
                classifiers: None,
            },
        ),
        natives: None,
        rules: match &library.rules {
            Some(rules) => Some(duplicate_rules(rules)),
            None => None,
        },
        extract: None,
        url: None,
    }
}

/// Every library, patched for the platform, in order.
pub fn apply(libraries: &[Library], platform: Platform) -> (r: Vec<Library>)
    ensures
        r@.len() == libraries@.len(),
        forall|i: int| 0 <= i < r@.len() ==> spec_patched(libraries@[i]@, #[trigger] r@[i]@, platform),
{
    let mut r: Vec<Library> = Vec::new();
    let mut i: usize = 0;
    while i < libraries.len()
        invariant
            i <= libraries.len(),
            r@.len() == i,
            forall|k: int| 0 <= k < i ==> spec_patched(libraries@[k]@, #[trigger] r@[k]@, platform),
        decreases libraries.len() - i,
    {
        r.push(patch(&libraries[i], platform));
        i = i + 1;
    }
    r
}

proof fn lemma_jna_version_numbers()
    ensures
        spec_version_number(seq!['5', '.', '1', '3', '.', '0'], 0) == 5,
        spec_version_number(seq!['5', '.', '1', '3', '.', '0'], 1) == 13,
        spec_version_number(seq!['5', '.', '1', '3', '.', '0'], 2) == 0,
{
    let p0 = seq!['5'];
    let p1 = seq!['1', '3'];
    let p2 = seq!['0'];
    let dot = seq!['.'];
    lemma_split_no_sep(p0, '.');
    lemma_split_no_sep(p1, '.');
    lemma_split_no_sep(p2, '.');
    lemma_split_join(p0, p1, '.');
    lemma_split_join(p0 + dot + p1, p2, '.');
    assert(p0 + dot + p1 + dot + p2 =~= seq!['5', '.', '1', '3', '.', '0']);
    assert(split(seq!['5', '.', '1', '3', '.', '0'], '.') =~= seq![p0, p1, p2]);
    assert(leading_digits(p0, 1) == 1);
    assert(leading_digits(p0, 0) == 1);
    assert(p0.subrange(0, 1) =~= p0);
    assert(unsigned_digits(p0) == p0);
    assert(decimal_value(p0.drop_last()) == 0);
    assert(decimal_value(p0) == 5);
    assert(leading_digits(p1, 2) == 2);
    assert(leading_digits(p1, 1) == 2);
    assert(leading_digits(p1, 0) == 2);
    assert(p1.subrange(0, 2) =~= p1);
    assert(unsigned_digits(p1) == p1);
    assert(p1.drop_last() =~= seq!['1']);
    assert(seq!['1'].drop_last() =~= Seq::<char>::empty());
    assert(decimal_value(seq!['1'].drop_last()) == 0);
    assert(decimal_value(seq!['1']) == 1);
    assert(decimal_value(p1) == 13);
    assert(leading_digits(p2, 1) == 1);
    assert(leading_digits(p2, 0) == 1);
    assert(p2.subrange(0, 1) =~= p2);
    assert(unsigned_digits(p2) == p2);
    assert(decimal_value(p2.drop_last()) == 0);
    assert(decimal_value(p2) == 0);
}

proof fn lemma_replacement_names_are_current(jna_platform: bool)
    ensures
        ({
            let name = if jna_platform { JNA_PLATFORM_NAME@ } else { JNA_NAME@ };
            spec_parse_coordinate(name) matches Some(c) && !spec_version_below(c.version, 5, 13, 0)
        }),
{
    reveal_strlit("net.java.dev.jna:jna:5.13.0");
    reveal_strlit("net.java.dev.jna:jna-platform:5.13.0");
    reveal_strlit("net.java.dev.jna");
    reveal_strlit("jna");
    reveal_strlit("jna-platform");
    reveal_strlit("jar");
    reveal_strlit(":");
    let version = seq!['5', '.', '1', '3', '.', '0'];
    let c = CoordinateView {
        group: "net.java.dev.jna"@,
        artifact: if jna_platform { "jna-platform"@ } else { "jna"@ },
        version,
        classifier: None,
        extension: "jar"@,
    };
    assert(spec_coordinate_text(c) =~= (if jna_platform { JNA_PLATFORM_NAME@ } else { JNA_NAME@ }));
    law_coordinate_roundtrip(c);
    lemma_jna_version_numbers();
}

/// Patching is idempotent: what a library patches to patches to itself; and off macOS a
/// library patches to itself.
pub proof fn law_patch_is_idempotent(library: LibraryModel, patched: LibraryModel, again: LibraryModel, platform: Platform)
    requires
        spec_patched(library, patched, platform),
        spec_patched(patched, again, platform),
    ensures
        again == patched,
        platform != Platform::MacOs ==> patched == library,
{
    if let Some(jna_platform) = spec_jna_replacement(library, platform) {
        lemma_replacement_names_are_current(jna_platform);
        assert(spec_jna_replacement(patched, platform) is None);
    }
}

} // verus!
