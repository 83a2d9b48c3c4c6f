use vstd::prelude::*;

use crate::foundation::paths::{path_join, spec_path_join};
use crate::foundation::text::{
    chars_of, contains_string, lower, lower_exec, replace_all, replace_all_exec, starts_with,
    starts_with_exec, slice, string_of, string_views, strip_leading, strip_leading_exec,
    strip_trailing, strip_trailing_exec, eq_exec, clone_strings,
};
use crate::network::DownloadItem;

verus! {

/// How far a check has come.
#[derive(Debug, Clone)]
pub struct CheckProgress {
    pub checked: usize,
    pub total: usize,
}

/// Where the game files live and which of them are the user's.
#[derive(Debug, Clone)]
pub struct CheckOptions {
    pub root: String,
    pub instance: Option<String>,
    pub ignored: Vec<String>,
}

/// A path with `\` read as `/`.
pub open spec fn spec_normalize(path: Seq<char>) -> Seq<char> {
    replace_all(path, seq!['\\'], seq!['/'])
}

/// A path relative to a base directory, when it lies under it; the normalized path otherwise.
pub open spec fn spec_relative_to(path: Seq<char>, base: Seq<char>) -> Seq<char> {
    let p = spec_normalize(path);
    let b = strip_trailing(spec_normalize(base), '/') + "/"@;
    if starts_with(p, b) {
        p.skip(b.len() as int)
    } else {
        p
    }
}

/// What a file found on disk means for a download.
#[derive(Debug, Clone, Copy, PartialEq, Eq, Structural)]
pub enum Verdict {
    /// The file is not there, or has the wrong size: download it.
    Missing,
    /// The user asked to leave the file alone.
    Ignored,
    /// The file must be hashed to know.
    Hash,
    /// The file is there and nothing more can be checked.
    Present,
}

/// `\` read as `/`.
pub fn normalize(path: &str) -> (r: String)
    ensures
        r@ == spec_normalize(path@),
{
    let backslash: Vec<char> = vec!['\\'];
    let slash: Vec<char> = vec!['/'];
    assert(backslash@ == seq!['\\']);
    assert(slash@ == seq!['/']);
    string_of(&replace_all_exec(&chars_of(path), &backslash, &slash))
}

/// A path relative to a base directory.
pub fn relative_to(path: &str, base: &str) -> (r: String)
    ensures
        r@ == spec_relative_to(path@, base@),
{
    let p = chars_of(normalize(path).as_str());
    let mut b = strip_trailing_exec(&chars_of(normalize(base).as_str()), '/');
    crate::foundation::text::append(&mut b, "/");
    if starts_with_exec(&p, &b) {
        string_of(&slice(&p, b.len(), p.len()))
    } else {
        string_of(&p)
    }
}

/// Whether two texts are equal when ASCII letters are compared without case.
pub fn eq_ignore_ascii_case(a: &str, b: &str) -> (r: bool)
    ensures
        r == (lower(a@) == lower(b@)),
{
    eq_exec(&lower_exec(&chars_of(a)), &lower_exec(&chars_of(b)))
}

impl CheckOptions {
    /// The options for a root, with no instance and nothing ignored.
    pub fn new(root: &str) -> (r: Self)
        ensures
            r.root@ == root@,
            r.instance is None,
            r.ignored@.len() == 0,
    {
        Self { root: root.to_owned(), instance: None, ignored: Vec::new() }
    }

    /// The directory the user's files are under: the instance's, or the root.
    pub open spec fn spec_base(&self) -> Seq<char> {
        match self.instance {
            Some(i) => spec_path_join(spec_path_join(self.root@, "instances"@), i@),
            None => self.root@,
        }
    }

    /// The directory the user's files are under.
    pub fn base(&self) -> (r: String)
        ensures
            r@ == self.spec_base(),
    {
        match &self.instance {
            Some(instance) => {
                let instances = path_join(self.root.as_str(), "instances");
                path_join(instances.as_str(), instance.as_str())
            },
            None => self.root.clone(),
        }
    }

    /// The ignored paths, normalized and without a leading `/`.
    pub open spec fn spec_ignored_set(&self) -> Seq<Seq<char>> {
        string_views(self.ignored@).map_values(|p: Seq<char>| strip_leading(spec_normalize(p), '/'))
    }

    /// The ignored paths, normalized and without a leading `/`.
    pub fn ignored_set(&self) -> (r: Vec<String>)
        ensures
            string_views(r@) == self.spec_ignored_set(),
    {
        let mut r: Vec<String> = Vec::new();
        let mut i: usize = 0;
        while i < self.ignored.len()
            invariant
                i <= self.ignored.len(),
                string_views(r@) == string_views(self.ignored@).subrange(0, i as int).map_values(
                    |p: Seq<char>| strip_leading(spec_normalize(p), '/'),
                ),
            decreases self.ignored.len() - i,
        {
            let n = normalize(self.ignored[i].as_str());
            let stripped = string_of(&strip_leading_exec(&chars_of(n.as_str()), '/'));
            let ghost before = r@;
            r.push(stripped);
            assert(string_views(self.ignored@).subrange(0, i + 1) =~= string_views(self.ignored@).subrange(0, i as int).push(self.ignored@[i as int]@));
            assert(string_views(r@) =~= string_views(before).push(stripped@));
            i = i + 1;
        }
        assert(string_views(self.ignored@).subrange(0, self.ignored@.len() as int) =~= string_views(self.ignored@));
        r
    }

    /// What to do with a download given the length of the file at its path (`None` when
    /// there is no file): a missing file is downloaded; an ignored one is left alone; a file
    /// with a known hash and the wrong size is downloaded again, else hashed; a file without
    /// a hash is taken as it is.
    pub open spec fn spec_verdict(&self, item: DownloadItem, file_len: Option<u64>) -> Verdict {
        match file_len {
            None => Verdict::Missing,
            Some(len) => if self.spec_ignored_set().contains(spec_relative_to(item.path@, self.spec_base())) {
                Verdict::Ignored
            } else if item.sha1 is Some {
                match item.size {
                    Some(size) if size != 0 && len != size => Verdict::Missing,
                    _ => Verdict::Hash,
                }
            } else {
                Verdict::Present
            },
        }
    }

    /// What to do with a download given the length of the file at its path.
    pub fn verdict(&self, item: &DownloadItem, file_len: Option<u64>) -> (r: Verdict)
        ensures
            r == self.spec_verdict(*item, file_len),
    {
        let len = match file_len {
            None => {
                return Verdict::Missing;
            },
            Some(len) => len,
        };
        let ignored = self.ignored_set();
        let relative = relative_to(item.path.as_str(), self.base().as_str());
        if contains_string(&ignored, relative.as_str()) {
            return Verdict::Ignored;
        }
        if item.sha1.is_some() {
            match item.size {
                Some(size) => {
                    if size != 0 && len != size {
                        return Verdict::Missing;
                    }
                    Verdict::Hash
                },
                None => Verdict::Hash,
            }
        } else {
            Verdict::Present
        }
    }
}

/// Where an ignored entry lies: under the base, normalized and without a leading `/`.
pub fn ignored_path(base: &str, entry: &str) -> (r: String)
    ensures
        r@ == spec_path_join(base@, strip_leading(spec_normalize(entry@), '/')),
{
    let n = normalize(entry);
    let stripped = string_of(&strip_leading_exec(&chars_of(n.as_str()), '/'));
    path_join(base, stripped.as_str())
}

/// Whether a path is one of the kept ones, both read with `\` as `/`.
pub open spec fn spec_is_kept(path: Seq<char>, kept: Seq<Seq<char>>) -> bool {
    exists|i: int| 0 <= i < kept.len() && spec_normalize(#[trigger] kept[i]) == spec_normalize(path)
}

/// The files that are not kept, in order: those a clean-up removes.
pub open spec fn spec_removals(files: Seq<Seq<char>>, kept: Seq<Seq<char>>) -> Seq<Seq<char>>
    decreases files.len(),
{
    if files.len() == 0 {
        Seq::empty()
    } else {
        let prev = spec_removals(files.drop_last(), kept);
        if spec_is_kept(files.last(), kept) {
            prev
        } else {
            prev.push(files.last())
        }
    }
}

/// What a verdict means for the file at a download's path: with no file, download it; with a
/// file that is not ignored, whose download has a hash and a known, non-zero size other than
/// the file's length, download it again; hash a file only when its download has a hash and no
/// size says it is wrong; take a file as it is only when its download has no hash.
pub proof fn law_verdict(options: CheckOptions, item: DownloadItem, file_len: Option<u64>)
    ensures
        file_len is None ==> options.spec_verdict(item, file_len) == Verdict::Missing,
        (file_len is Some && item.sha1 is Some && item.size is Some && item.size.unwrap() != 0
            && item.size.unwrap() != file_len.unwrap() && !options.spec_ignored_set().contains(
            spec_relative_to(item.path@, options.spec_base()),
        )) ==> options.spec_verdict(item, file_len) == Verdict::Missing,
        options.spec_verdict(item, file_len) == Verdict::Hash ==> (item.sha1 is Some && file_len is Some
            && (item.size is None || item.size.unwrap() == 0 || item.size.unwrap()
            == file_len.unwrap())),
        options.spec_verdict(item, file_len) == Verdict::Present ==> (item.sha1 is None
            && file_len is Some),
{
}

/// A clean-up removes exactly the files that are not kept: every removed file is one of the
/// files and is not kept, and every file that is not kept is removed.
pub proof fn law_clean_up_removes_exactly_the_unkept(files: Seq<Seq<char>>, kept: Seq<Seq<char>>)
    ensures
        forall|x: Seq<char>|
            #[trigger] spec_removals(files, kept).contains(x) <==> (files.contains(x) && !spec_is_kept(
                x,
                kept,
            )),
    decreases files.len(),
{
    if files.len() > 0 {
        let prev = files.drop_last();
        law_clean_up_removes_exactly_the_unkept(prev, kept);
        assert forall|x: Seq<char>| files.contains(x) <==> (prev.contains(x) || x == files.last()) by {
            if files.contains(x) {
                let i = choose|i: int| 0 <= i < files.len() && files[i] == x;
                if i < files.len() - 1 {
                    assert(prev[i] == x);
                }
            }
            if prev.contains(x) {
                let i = choose|i: int| 0 <= i < prev.len() && prev[i] == x;
                assert(files[i] == x);
            }
            if x == files.last() {
                assert(files[files.len() - 1] == x);
            }
        }
        let r = spec_removals(prev, kept);
        assert forall|x: Seq<char>| r.push(files.last()).contains(x) <==> (r.contains(x) || x == files.last()) by {
            if r.push(files.last()).contains(x) {
                let i = choose|i: int| 0 <= i < r.len() + 1 && r.push(files.last())[i] == x;
                if i < r.len() {
                    assert(r[i] == x);
                }
            }
            if r.contains(x) {
                let i = choose|i: int| 0 <= i < r.len() && r[i] == x;
                assert(r.push(files.last())[i] == x);
            }
            if x == files.last() {
                assert(r.push(files.last())[r.len() as int] == x);
            }
        }
        assert forall|x: Seq<char>|
            #[trigger] spec_removals(files, kept).contains(x) <==> (files.contains(x) && !spec_is_kept(
                x,
                kept,
            )) by {
            assert(spec_removals(prev, kept).contains(x) <==> (prev.contains(x) && !spec_is_kept(x, kept)));
        }
    } else {
        assert forall|x: Seq<char>|
            #[trigger] spec_removals(files, kept).contains(x) <==> (files.contains(x) && !spec_is_kept(
                x,
                kept,
            )) by {
            assert(spec_removals(files, kept).len() == 0);
        }
    }
}

/// The files among `files` that a clean-up removes: every one whose path is not kept.
pub fn removals(files: &Vec<String>, kept: &Vec<String>) -> (r: Vec<String>)
    ensures
        string_views(r@) == spec_removals(string_views(files@), string_views(kept@)),
{
    let mut normalized: Vec<String> = Vec::new();
    let mut j: usize = 0;
    while j < kept.len()
        invariant
            j <= kept.len(),
            normalized@.len() == j,
            forall|k: int| 0 <= k < j ==> (#[trigger] normalized@[k])@ == spec_normalize(kept@[k]@),
        decreases kept.len() - j,
    {
        normalized.push(normalize(kept[j].as_str()));
        j = j + 1;
    }
    let mut r: Vec<String> = Vec::new();
    let mut i: usize = 0;
    while i < files.len()
        invariant
            i <= files.len(),
            normalized@.len() == kept@.len(),
            forall|k: int| 0 <= k < kept@.len() ==> (#[trigger] normalized@[k])@ == spec_normalize(kept@[k]@),
            string_views(r@) == spec_removals(string_views(files@).subrange(0, i as int), string_views(kept@)),
        decreases files.len() - i,
    {
        let n = normalize(files[i].as_str());
        let found = contains_string(&normalized, n.as_str());
        let ghost pre = string_views(files@).subrange(0, i + 1);
        proof {
            assert(pre.drop_last() =~= string_views(files@).subrange(0, i as int));
            assert(pre.last() == files@[i as int]@);
            if found {
                let k = choose|k: int| 0 <= k < string_views(normalized@).len() && string_views(normalized@)[k] == n@;
                assert(spec_normalize(string_views(kept@)[k]) == spec_normalize(files@[i as int]@));
            } else {
                assert forall|k: int| 0 <= k < string_views(kept@).len() implies spec_normalize(
                    #[trigger] string_views(kept@)[k],
                ) != spec_normalize(files@[i as int]@) by {
                    assert(string_views(normalized@)[k] == normalized@[k]@);
                }
            }
        }
        if !found {
            let ghost before = r@;
            r.push(files[i].clone());
            assert(string_views(r@) =~= string_views(before).push(files@[i as int]@));
        }
        i = i + 1;
    }
    assert(string_views(files@).subrange(0, files@.len() as int) =~= string_views(files@));
    r
}

/// What an ignored entry turned out to be on disk: a folder, with the files found under it; a
/// file; or nothing.
#[derive(Debug, Clone)]
pub enum IgnoredEntry {
    Folder(Vec<String>),
    File,
    Missing,
}

/// The paths the ignored entries keep, in order: the files of an ignored folder, the path of
/// an ignored file, nothing for an entry that is not there.
pub open spec fn spec_ignored_kept(base: Seq<char>, entries: Seq<String>, found: Seq<IgnoredEntry>) -> Seq<Seq<char>>
    decreases found.len(),
{
    if found.len() == 0 || entries.len() == 0 {
        Seq::empty()
    } else {
        let prev = spec_ignored_kept(base, entries.drop_last(), found.drop_last());
        match found.last() {
            IgnoredEntry::Folder(files) => prev + string_views(files@),
            IgnoredEntry::File => prev.push(
                spec_path_join(base, strip_leading(spec_normalize(entries.last()@), '/')),
            ),
            IgnoredEntry::Missing => prev,
        }
    }
}

impl CheckOptions {
    /// The paths a clean-up keeps: the files under the loader and runtime folders, those the
    /// ignored entries keep, and the files the launch needs.
    pub open spec fn spec_kept_paths(
        &self,
        loader_files: Seq<String>,
        runtime_files: Seq<String>,
        found: Seq<IgnoredEntry>,
        keep: Seq<String>,
    ) -> Seq<Seq<char>> {
        string_views(loader_files) + string_views(runtime_files) + spec_ignored_kept(
            self.spec_base(),
            self.ignored@,
            found,
        ) + string_views(keep)
    }

    /// The paths a clean-up keeps, given the files found under the loader and runtime folders
    /// and what each ignored entry is on disk (`found` follows `ignored`, entry by entry).
    pub fn kept_paths(
        &self,
        loader_files: &Vec<String>,
        runtime_files: &Vec<String>,
        found: &Vec<IgnoredEntry>,
        keep: &Vec<String>,
    ) -> (r: Vec<String>)
        requires
            found@.len() == self.ignored@.len(),
        ensures
            string_views(r@) == self.spec_kept_paths(loader_files@, runtime_files@, found@, keep@),
    {
        let base = self.base();
        let mut r = clone_strings(loader_files);
        push_strings(&mut r, runtime_files);
        let ghost head = string_views(r@);
        let mut i: usize = 0;
        while i < found.len()
            invariant
                i <= found@.len(),
                found@.len() == self.ignored@.len(),
                base@ == self.spec_base(),
                string_views(r@) == head + spec_ignored_kept(
                    self.spec_base(),
                    self.ignored@.subrange(0, i as int),
                    found@.subrange(0, i as int),
                ),
            decreases found.len() - i,
        {
            let ghost before = string_views(r@);
            proof {
                assert(self.ignored@.subrange(0, i + 1).drop_last() =~= self.ignored@.subrange(0, i as int));
                assert(found@.subrange(0, i + 1).drop_last() =~= found@.subrange(0, i as int));
            }
            match &found[i] {
                IgnoredEntry::Folder(files) => {
                    push_strings(&mut r, files);
                },
                IgnoredEntry::File => {
                    let path = ignored_path(base.as_str(), self.ignored[i].as_str());
                    r.push(path);
                    assert(string_views(r@) =~= before.push(path@));
                },
                IgnoredEntry::Missing => {},
            }
            i = i + 1;
        }
        proof {
            assert(self.ignored@.subrange(0, found@.len() as int) =~= self.ignored@);
            assert(found@.subrange(0, found@.len() as int) =~= found@);
        }
        push_strings(&mut r, keep);
        r
    }

    /// The files of `listing` (everything found under the base) that a clean-up removes.
    pub fn cleanup(
        &self,
        listing: &Vec<String>,
        loader_files: &Vec<String>,
        runtime_files: &Vec<String>,
        found: &Vec<IgnoredEntry>,
        keep: &Vec<String>,
    ) -> (r: Vec<String>)
        requires
            found@.len() == self.ignored@.len(),
        ensures
            string_views(r@) == spec_removals(
                string_views(listing@),
                self.spec_kept_paths(loader_files@, runtime_files@, found@, keep@),
            ),
    {
        let kept = self.kept_paths(loader_files, runtime_files, found, keep);
        removals(listing, &kept)
    }
}

/// Appends copies of strings.
fn push_strings(r: &mut Vec<String>, more: &Vec<String>)
    ensures
        string_views(final(r)@) == string_views(old(r)@) + string_views(more@),
{
    let ghost start = string_views(r@);
    let mut i: usize = 0;
    while i < more.len()
        invariant
            i <= more@.len(),
            string_views(r@) == start + string_views(more@).subrange(0, i as int),
        decreases more.len() - i,
    {
        let ghost before = string_views(r@);
        r.push(more[i].clone());
        assert(string_views(r@) =~= before.push(more@[i as int]@));
        assert(string_views(more@).subrange(0, i + 1) =~= string_views(more@).subrange(0, i as int).push(more@[i as int]@));
        i = i + 1;
    }
    assert(string_views(more@).subrange(0, more@.len() as int) =~= string_views(more@));
}

/// Whether a file's SHA-1 is the expected one, whatever the case of the hex digits; a file
/// whose hash could not be computed is not.
pub fn hash_matches(actual: Option<&str>, expected: Option<&str>) -> (r: bool)
    ensures
        r == match actual {
            Some(a) => lower(a@) == lower(match expected {
                Some(e) => e@,
                None => Seq::<char>::empty(),
            }),
            None => false,
        },
{
    match actual {
        Some(a) => {
            let e = match expected {
                Some(e) => e,
                None => "",
            };
            proof {
                reveal_strlit("");
                assert(""@ =~= Seq::<char>::empty());
            }
            eq_ignore_ascii_case(a, e)
        },
        None => false,
    }
}

} // verus!
