use vstd::prelude::*;

use crate::foundation::text::{
    chars_of, contains, contains_exec, find, find_exec, lemma_find, slice, string_of, string_views,
    trim, trim_exec,
};

verus! {

/// `Main-Class: ` as characters.
pub open spec fn main_class_key() -> Seq<char> {
    "Main-Class: "@
}

/// The main class a jar manifest names: the line after the first `Main-Class: ` (up to the
/// next one), trimmed; none when it is missing or empty.
pub open spec fn spec_main_class_of(content: Seq<char>) -> Option<Seq<char>> {
    match find(content, main_class_key()) {
        None => None,
        Some(i) => {
            let after = content.skip(i + main_class_key().len());
            let segment = match find(after, main_class_key()) {
                Some(j) => after.subrange(0, j),
                None => after,
            };
            let line = match find(segment, seq!['\n']) {
                Some(k) => segment.subrange(0, k),
                None => segment,
            };
            let t = trim(line);
            if t.len() == 0 {
                None
            } else {
                Some(t)
            }
        },
    }
}

/// The main class a jar manifest names.
pub fn main_class_of(content: &str) -> (r: Option<String>)
    ensures
        match r {
            Some(s) => spec_main_class_of(content@) == Some(s@),
            None => spec_main_class_of(content@) is None,
        },
{
    let c = chars_of(content);
    let key = chars_of("Main-Class: ");
    proof {
        reveal_strlit("Main-Class: ");
        lemma_find(c@, key@);
    }
    let i = match find_exec(&c, &key) {
        None => {
            return None;
        },
        Some(i) => i,
    };
    let total = c.len();
    assert(i + key@.len() <= total);
    let after = slice(&c, i + key.len(), total);
    assert(after@ =~= c@.skip(i + key@.len()));
    proof {
        lemma_find(after@, key@);
    }
    let segment = match find_exec(&after, &key) {
        Some(j) => slice(&after, 0, j),
        None => after,
    };
    let newline: Vec<char> = vec!['\n'];
    assert(newline@ == seq!['\n']);
    proof {
        lemma_find(segment@, newline@);
    }
    let line = match find_exec(&segment, &newline) {
        Some(k) => slice(&segment, 0, k),
        None => segment,
    };
    let t = trim_exec(&line);
    if t.len() == 0 {
        None
    } else {
        Some(string_of(&t))
    }
}

/// The names of the first `n` archive entries that are files and contain `needle`.
pub open spec fn spec_entries_containing(entries: Seq<(String, bool)>, needle: Seq<char>, n: int) -> Seq<Seq<char>>
    decreases n,
{
    if n <= 0 {
        Seq::empty()
    } else {
        let prev = spec_entries_containing(entries, needle, n - 1);
        let (name, is_dir) = entries[n - 1];
        if !is_dir && contains(name@, needle) {
            prev.push(name@)
        } else {
            prev
        }
    }
}

/// The names of the archive entries (name and whether it is a directory) that are files and
/// contain `needle`, in order.
pub fn entries_containing(entries: &Vec<(String, bool)>, needle: &str) -> (r: Vec<String>)
    ensures
        string_views(r@) == spec_entries_containing(entries@, needle@, entries@.len() as int),
{
    let n = chars_of(needle);
    let mut r: Vec<String> = Vec::new();
    let mut i: usize = 0;
    while i < entries.len()
        invariant
            i <= entries.len(),
            n@ == needle@,
            string_views(r@) == spec_entries_containing(entries@, needle@, i as int),
        decreases entries.len() - i,
    {
        if !entries[i].1 && contains_exec(&chars_of(entries[i].0.as_str()), &n) {
            let ghost rr = r@;
            r.push(entries[i].0.clone());
            assert(string_views(r@) =~= string_views(rr).push(entries@[i as int].0@));
        }
        i = i + 1;
    }
    r
}

} // verus!
