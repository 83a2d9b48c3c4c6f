use vstd::prelude::*;

use super::text::{
    all_digits, chars_of, decimal_value, digits_value, is_digit, lemma_decimal_value_bound,
    lemma_pow10_16, slice,
};

verus! {

/// A `major.minor.patch` version.
#[derive(Debug, Clone, Copy, PartialEq, Eq, PartialOrd, Ord, Structural)]
pub struct Version {
    pub major: u64,
    pub minor: u64,
    pub patch: u64,
}

/// `a` comes no later than `b` in version order (major, then minor, then patch).
pub open spec fn version_le(a: Version, b: Version) -> bool {
    a.major < b.major || (a.major == b.major && (a.minor < b.minor || (a.minor == b.minor
        && a.patch <= b.patch)))
}

/// `a` comes strictly before `b` in version order.
pub open spec fn version_lt(a: Version, b: Version) -> bool {
    version_le(a, b) && a != b
}

impl Version {
    pub fn new(major: u64, minor: u64, patch: u64) -> (v: Self)
        ensures
            v == (Version { major, minor, patch }),
    {
        Self { major, minor, patch }
    }

    /// Whether the version lies between `low` and `high`, both included.
    pub fn within(self, low: Version, high: Version) -> (b: bool)
        ensures
            b == (version_le(low, self) && version_le(self, high)),
    {
        le(low, self) && le(self, high)
    }
}

/// Whether `a` comes no later than `b`.
pub fn le(a: Version, b: Version) -> (r: bool)
    ensures
        r == version_le(a, b),
{
    a.major < b.major || (a.major == b.major && (a.minor < b.minor || (a.minor == b.minor
        && a.patch <= b.patch)))
}

/// Whether `a` comes strictly before `b`.
pub fn lt(a: Version, b: Version) -> (r: bool)
    ensures
        r == version_lt(a, b),
{
    le(a, b) && !(a.major == b.major && a.minor == b.minor && a.patch == b.patch)
}

/// The end of the run of digits that starts at `i`.
pub open spec fn digit_run_end(s: Seq<char>, i: int) -> int
    decreases s.len() - i,
{
    if 0 <= i < s.len() && is_digit(s[i]) {
        digit_run_end(s, i + 1)
    } else {
        i
    }
}

/// A `.` followed by one to sixteen digits at `i`: the number they spell and the index after them.
pub open spec fn spec_read_component(s: Seq<char>, i: int) -> (Option<nat>, int) {
    if 0 <= i < s.len() && s[i] == '.' {
        let e = digit_run_end(s, i + 1);
        if e == i + 1 || e - (i + 1) > 16 {
            (None, i)
        } else {
            (Some(decimal_value(s.subrange(i + 1, e))), e)
        }
    } else {
        (None, i)
    }
}

/// The version that `node-semver`'s `coerce` finds in `s` from index `i`: the first run of at
/// most sixteen digits is the major version (longer runs are skipped), followed by an optional
/// `.minor` and, after a minor, an optional `.patch`; missing parts are zero.
pub open spec fn spec_coerce_from(s: Seq<char>, i: int) -> Option<Version>
    decreases s.len() - i,
{
    if i < 0 || i >= s.len() {
        None
    } else if !is_digit(s[i]) {
        spec_coerce_from(s, i + 1)
    } else {
        let e = digit_run_end(s, i);
        if e - i > 16 {
            proof {
                lemma_digit_run_end(s, i);
            }
            spec_coerce_from(s, e)
        } else {
            let (minor, next) = spec_read_component(s, e);
            let patch = match minor {
                Some(_) => spec_read_component(s, next).0,
                None => None,
            };
            Some(
                Version {
                    major: decimal_value(s.subrange(i, e)) as u64,
                    minor: match minor {
                        Some(m) => m as u64,
                        None => 0,
                    },
                    patch: match patch {
                        Some(p) => p as u64,
                        None => 0,
                    },
                },
            )
        }
    }
}

/// The version that `coerce` finds in `s`.
pub open spec fn spec_coerce(s: Seq<char>) -> Option<Version> {
    spec_coerce_from(s, 0)
}

pub proof fn lemma_digit_run_end(s: Seq<char>, i: int)
    requires
        0 <= i <= s.len(),
    ensures
        i <= digit_run_end(s, i) <= s.len(),
        forall|k: int| i <= k < digit_run_end(s, i) ==> is_digit(#[trigger] s[k]),
    decreases s.len() - i,
{
    if i < s.len() && is_digit(s[i]) {
        lemma_digit_run_end(s, i + 1);
    }
}

/// The end of the run of digits of `s` that starts at `i`.
fn run_end(s: &Vec<char>, i: usize) -> (e: usize)
    requires
        i <= s.len(),
    ensures
        e == digit_run_end(s@, i as int),
{
    let mut e = i;
    while e < s.len() && s[e] >= '0' && s[e] <= '9'
        invariant
            i <= e <= s.len(),
            digit_run_end(s@, i as int) == digit_run_end(s@, e as int),
        decreases s.len() - e,
    {
        e = e + 1;
    }
    e
}

/// The number spelled by the digits of `s` from `from` to `to`, at most sixteen of them.
fn short_number(s: &Vec<char>, from: usize, to: usize) -> (v: u64)
    requires
        from <= to <= s.len(),
        to - from <= 16,
        forall|k: int| from <= k < to ==> is_digit(#[trigger] s@[k]),
    ensures
        v == decimal_value(s@.subrange(from as int, to as int)),
{
    let d = slice(s, from, to);
    assert(all_digits(d@)) by {
        assert forall|k: int| 0 <= k < d@.len() implies is_digit(#[trigger] d@[k]) by {
            assert(d@[k] == s@[from + k]);
        }
    }
    proof {
        lemma_decimal_value_bound(d@);
        lemma_pow10_16();
        lemma_pow10_monotone(d@.len(), 16);
    }
    match digits_value(&d) {
        Some(v) => v,
        None => 0,
    }
}

proof fn lemma_pow10_monotone(a: nat, b: nat)
    requires
        a <= b,
    ensures
        super::text::pow10(a) <= super::text::pow10(b),
    decreases b,
{
    if a < b {
        lemma_pow10_monotone(a, (b - 1) as nat);
    }
}

/// Reads a `.` followed by one to sixteen digits at `index`.
fn read_component(s: &Vec<char>, index: usize) -> (r: (Option<u64>, usize))
    requires
        index <= s.len(),
    ensures
        r.1 as int == spec_read_component(s@, index as int).1,
        r.0 matches Some(v) ==> spec_read_component(s@, index as int).0 == Some(v as nat),
        r.0 is None ==> spec_read_component(s@, index as int).0 is None,
        r.1 <= s.len(),
{
    if index >= s.len() || s[index] != '.' {
        return (None, index);
    }
    let start = index + 1;
    let end = run_end(s, start);
    proof { lemma_digit_run_end(s@, start as int); }
    if end == start || end - start > 16 {
        return (None, index);
    }
    (Some(short_number(s, start, end)), end)
}

/// Finds a version in free text the way `node-semver`'s `coerce` does.
pub fn coerce(input: &str) -> (r: Option<Version>)
    ensures
        r == spec_coerce(input@),
{
    let s = chars_of(input);
    let mut index: usize = 0;
    while index < s.len()
        invariant
            index <= s.len(),
            s@ == input@,
            spec_coerce(s@) == spec_coerce_from(s@, index as int),
        decreases s.len() - index,
    {
        if !(s[index] >= '0' && s[index] <= '9') {
            index = index + 1;
            continue;
        }
        let start = index;
        let end = run_end(&s, start);
        proof { lemma_digit_run_end(s@, start as int); }
        if end - start > 16 {
            index = end;
            continue;
        }
        let major = short_number(&s, start, end);
        let (minor, next) = read_component(&s, end);
        let (patch, _) = match minor {
            Some(_) => read_component(&s, next),
            None => (None, next),
        };
        let minor_value = match minor {
            Some(m) => m,
            None => 0,
        };
        let patch_value = match patch {
            Some(p) => p,
            None => 0,
        };
        return Some(Version::new(major, minor_value, patch_value));
    }
    None
}

} // verus!
