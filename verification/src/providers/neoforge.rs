use vstd::prelude::*;

use crate::foundation::text::{
    append, chars_of, find, find_exec, lemma_find, lemma_split_nonempty, push_all, replace_all,
    replace_all_exec, slice, split, split_chars, starts_with, starts_with_exec, string_of, views,
    eq_exec,
};
use crate::resolver::patches::leading_digits;

verus! {

pub const LEGACY_METADATA_URL: &'static str =
    "https://maven.neoforged.net/api/maven/versions/releases/net/neoforged/forge";
pub const METADATA_URL: &'static str =
    "https://maven.neoforged.net/api/maven/versions/releases/net/neoforged/neoforge";
pub const LEGACY_INSTALLER_URL: &'static str =
    "https://maven.neoforged.net/releases/net/neoforged/forge/${version}/forge-${version}-installer.jar";
pub const INSTALLER_URL: &'static str =
    "https://maven.neoforged.net/releases/net/neoforged/neoforge/${version}/neoforge-${version}-installer.jar";

/// The builds NeoForge has published.
#[derive(Debug, Clone)]
pub struct VersionList {
    pub versions: Vec<String>,
}

/// The installer URL of a build of the older `forge` artifact.
pub fn legacy_installer_url(build: &str) -> (r: String)
    ensures
        r@ == replace_all(LEGACY_INSTALLER_URL@, "${version}"@, build@),
{
    proof {
        reveal_strlit("${version}");
    }
    string_of(
        &replace_all_exec(&chars_of(LEGACY_INSTALLER_URL), &chars_of("${version}"), &chars_of(build)),
    )
}

/// The installer URL of a build.
pub fn installer_url(build: &str) -> (r: String)
    ensures
        r@ == replace_all(INSTALLER_URL@, "${version}"@, build@),
{
    proof {
        reveal_strlit("${version}");
    }
    string_of(&replace_all_exec(&chars_of(INSTALLER_URL), &chars_of("${version}"), &chars_of(build)))
}

/// The index of the first `-` or `+` of `s` at or after `i`, or its length.
pub open spec fn first_separator(s: Seq<char>, i: int) -> int
    decreases s.len() - i,
{
    if i < 0 || i >= s.len() {
        s.len() as int
    } else if s[i] == '-' || s[i] == '+' {
        i
    } else {
        first_separator(s, i + 1)
    }
}

/// `-<prefix><digits>` for the digits that begin `number`, or nothing without digits.
pub open spec fn digits_suffix(prefix: Seq<char>, number: Seq<char>) -> Seq<char> {
    let digits = number.subrange(0, leading_digits(number, 0));
    if digits.len() > 0 {
        "-"@ + prefix + digits
    } else {
        Seq::empty()
    }
}

/// The snapshot or pre-release a `+snapshot-N` or `+pre-N` suffix names, as `-snapshot-N` or
/// `-pre-N`.
pub open spec fn snapshot_suffix(v: Seq<char>) -> Seq<char> {
    match find(v, "+"@) {
        None => Seq::empty(),
        Some(i) => {
            let suffix = v.skip(i + 1);
            if starts_with(suffix, "snapshot-"@) {
                digits_suffix("snapshot-"@, suffix.skip(9))
            } else if starts_with(suffix, "pre-"@) {
                digits_suffix("pre-"@, suffix.skip(4))
            } else {
                Seq::empty()
            }
        },
    }
}

/// The Minecraft version a NeoForge build is for: `0.<mc>.<n>` builds name it outright;
/// four-part builds `A.B.C.D` are for `A.B` or `A.B.C` (with a snapshot or pre-release
/// suffix); three-part builds `A.B.C` are for `1.A` or `1.A.B`.
pub open spec fn spec_minecraft_version_of(v: Seq<char>) -> Option<Seq<char>> {
    if starts_with(v, "0."@) && (find(v.skip(2), "."@) matches Some(end) && end > 0) {
        Some(v.skip(2).subrange(0, find(v.skip(2), "."@)->0))
    } else {
        let parts = split(v.subrange(0, first_separator(v, 0)), '.');
        if parts.len() >= 4 {
            let base = parts[0] + "."@ + parts[1];
            let mc = if parts[2] != "0"@ {
                base + "."@ + parts[2]
            } else {
                base
            };
            Some(mc + snapshot_suffix(v))
        } else if parts.len() == 3 {
            if parts[1] == "0"@ {
                Some("1."@ + parts[0])
            } else {
                Some("1."@ + parts[0] + "."@ + parts[1])
            }
        } else {
            None
        }
    }
}

proof fn lemma_first_separator(s: Seq<char>, i: int)
    requires
        0 <= i <= s.len(),
    ensures
        i <= first_separator(s, i) <= s.len(),
    decreases s.len() - i,
{
    if i < s.len() && !(s[i] == '-' || s[i] == '+') {
        lemma_first_separator(s, i + 1);
    }
}

fn digits_suffix_exec(prefix: &str, number: &Vec<char>) -> (r: Vec<char>)
    ensures
        r@ == digits_suffix(prefix@, number@),
{
    let mut e: usize = 0;
    while e < number.len() && number[e] >= '0' && number[e] <= '9'
        invariant
            e <= number.len(),
            leading_digits(number@, 0) == leading_digits(number@, e as int),
        decreases number.len() - e,
    {
        e = e + 1;
    }
    let digits = slice(number, 0, e);
    if digits.len() > 0 {
        let mut r = chars_of("-");
        append(&mut r, prefix);
        push_all(&mut r, &digits);
        r
    } else {
        Vec::new()
    }
}

fn snapshot_suffix_exec(v: &Vec<char>) -> (r: Vec<char>)
    ensures
        r@ == snapshot_suffix(v@),
{
    proof {
        reveal_strlit("+");
        reveal_strlit("snapshot-");
        reveal_strlit("pre-");
        lemma_find(v@, "+"@);
    }
    match find_exec(v, &chars_of("+")) {
        None => Vec::new(),
        Some(i) => {
            assert("+"@.len() == 1);
            let n = v.len();
            assert(i + 1 <= n);
            let suffix = slice(v, i + 1, n);
            assert(suffix@ =~= v@.skip(i + 1));
            if starts_with_exec(&suffix, &chars_of("snapshot-")) {
                let number = slice(&suffix, 9, suffix.len());
                assert(number@ =~= suffix@.skip(9));
                digits_suffix_exec("snapshot-", &number)
            } else if starts_with_exec(&suffix, &chars_of("pre-")) {
                let number = slice(&suffix, 4, suffix.len());
                assert(number@ =~= suffix@.skip(4));
                digits_suffix_exec("pre-", &number)
            } else {
                Vec::new()
            }
        },
    }
}

/// The Minecraft version a NeoForge build is for.
pub fn minecraft_version_of(version: &str) -> (r: Option<String>)
    ensures
        match r {
            Some(s) => spec_minecraft_version_of(version@) == Some(s@),
            None => spec_minecraft_version_of(version@) is None,
        },
{
    let v = chars_of(version);
    proof {
        reveal_strlit("0.");
        reveal_strlit(".");
        reveal_strlit("0");
    }
    if starts_with_exec(&v, &chars_of("0.")) {
        let rest = slice(&v, 2, v.len());
        assert(rest@ =~= v@.skip(2));
        proof {
            lemma_find(rest@, "."@);
        }
        match find_exec(&rest, &chars_of(".")) {
            Some(end) => {
                if end > 0 {
                    return Some(string_of(&slice(&rest, 0, end)));
                }
            },
            None => {},
        }
    }
    let mut cut: usize = 0;
    while cut < v.len() && v[cut] != '-' && v[cut] != '+'
        invariant
            cut <= v.len(),
            first_separator(v@, 0) == first_separator(v@, cut as int),
        decreases v.len() - cut,
    {
        cut = cut + 1;
    }
    let numeric = slice(&v, 0, cut);
    let parts = split_chars(&numeric, '.');
    proof {
        lemma_split_nonempty(numeric@, '.');
    }
    let zero = chars_of("0");
    if parts.len() >= 4 {
        assert(views(parts@)[0] == parts@[0]@);
        assert(views(parts@)[1] == parts@[1]@);
        assert(views(parts@)[2] == parts@[2]@);
        let mut mc = parts[0].clone();
        append(&mut mc, ".");
        push_all(&mut mc, &parts[1]);
        if !eq_exec(&parts[2], &zero) {
            append(&mut mc, ".");
            push_all(&mut mc, &parts[2]);
        }
        let suffix = snapshot_suffix_exec(&v);
        push_all(&mut mc, &suffix);
        return Some(string_of(&mc));
    }
    if parts.len() == 3 {
        assert(views(parts@)[0] == parts@[0]@);
        assert(views(parts@)[1] == parts@[1]@);
        let mut mc = chars_of("1.");
        push_all(&mut mc, &parts[0]);
        if !eq_exec(&parts[1], &zero) {
            append(&mut mc, ".");
            push_all(&mut mc, &parts[1]);
        }
        return Some(string_of(&mc));
    }
    None
}

} // verus!
