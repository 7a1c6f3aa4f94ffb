use vstd::prelude::*;
use vstd::string::*;
use crate::text_util::chars_of;

verus! {

/// A file that was opened, and when: seconds since the start of 1970.
#[derive(Debug, Clone)]
pub struct RecentFileEntry {
    pub path: String,
    pub opened_at: u64,
}

/// The text files that were opened last, the latest first, each path once.
#[derive(Debug)]
pub struct RecentFiles {
    /// How many files the list keeps.
    pub max_files: usize,
    /// The files, the latest first.
    pub entries: Vec<RecentFileEntry>,
}

/// The extension of a path's file name as `std::path::Path::extension`
/// finds it on the platform that the library is built for; empty where the
/// file name has none.
pub uninterp spec fn path_extension(path: Seq<char>) -> Seq<char>;

/// A text in lower case, as `str::to_lowercase` writes it.
pub uninterp spec fn lowercase(s: Seq<char>) -> Seq<char>;

/// Whether `ext`, in lower case and without its dot, is the extension of a
/// kind of text file that the list keeps.
pub open spec fn is_text_extension(ext: Seq<char>) -> bool {
    ||| ext == "txt"@
    ||| ext == "md"@
    ||| ext == "rs"@
    ||| ext == "py"@
    ||| ext == "js"@
    ||| ext == "ts"@
    ||| ext == "json"@
    ||| ext == "toml"@
    ||| ext == "yaml"@
    ||| ext == "yml"@
    ||| ext == "xml"@
    ||| ext == "html"@
    ||| ext == "css"@
    ||| ext == "sh"@
    ||| ext == "zsh"@
    ||| ext == "bash"@
    ||| ext == "c"@
    ||| ext == "cpp"@
    ||| ext == "h"@
    ||| ext == "hpp"@
    ||| ext == "java"@
    ||| ext == "go"@
    ||| ext == "rb"@
    ||| ext == "php"@
    ||| ext == "swift"@
    ||| ext == "kt"@
    ||| ext == "scala"@
    ||| ext == "clj"@
    ||| ext == "lua"@
    ||| ext == "vim"@
    ||| ext == "conf"@
    ||| ext == "config"@
    ||| ext == "ini"@
    ||| ext == "log"@
    ||| ext == "csv"@
    ||| ext == "tsv"@
}

/// Whether the list keeps a file with this path: its extension, in lower
/// case, is one of a text file.
pub open spec fn is_text_path(path: Seq<char>) -> bool {
    is_text_extension(lowercase(path_extension(path)))
}

/// The first `k` entries without those of the file `path`.
pub open spec fn without_path(entries: Seq<RecentFileEntry>, path: Seq<char>, k: nat) -> Seq<
    RecentFileEntry,
>
    decreases k,
{
    if k == 0 {
        Seq::empty()
    } else {
        let before = without_path(entries, path, (k - 1) as nat);
        if entries[k - 1].path@ == path {
            before
        } else {
            before.push(entries[k - 1])
        }
    }
}

/// The list after `entry` was opened: `entry` first, then the others as
/// they stood, and no more than `max_files` in all.
pub open spec fn with_file(
    entries: Seq<RecentFileEntry>,
    entry: RecentFileEntry,
    max_files: nat,
) -> Seq<RecentFileEntry> {
    let all = seq![entry] + without_path(entries, entry.path@, entries.len());
    if all.len() > max_files {
        all.subrange(0, max_files as int)
    } else {
        all
    }
}

/// `std::path::Path::extension`, as a text: the extension of the file
/// name of `path`, empty where it has none.
#[verifier::external_body]
fn extension_of(path: &str) -> (ext: String)
    ensures
        ext@ == path_extension(path@),
{
    match std::path::Path::new(path).extension() {
        Some(ext) => match ext.to_str() {
            Some(text) => text.to_owned(),
            None => String::new(),
        },
        None => String::new(),
    }
}

/// `str::to_lowercase`: the text in lower case.
#[verifier::external_body]
fn to_lowercase(s: &str) -> (lower: String)
    ensures
        lower@ == lowercase(s@),
{
    s.to_lowercase()
}

/// Whether two texts hold the same characters.
pub fn same_text(a: &str, b: &str) -> (same: bool)
    ensures
        same == (a@ == b@),
{
    let x = chars_of(a);
    let y = chars_of(b);
    if x.len() != y.len() {
        return false;
    }
    let n: usize = x.len();
    let mut i: usize = 0;
    while i < n
        invariant
            i <= n,
            n == x@.len(),
            n == y@.len(),
            x@ == a@,
            y@ == b@,
            forall|j: int| 0 <= j < i ==> x@[j] == y@[j],
        decreases n - i,
    {
        if x[i] != y[i] {
            return false;
        }
        i += 1;
    }
    assert(a@ =~= b@);
    true
}

/// Whether `ext`, in lower case and without its dot, is the extension of a
/// kind of text file that the list keeps.
pub fn text_extension(ext: &str) -> (known: bool)
    ensures
        known == is_text_extension(ext@),
{
    same_text(ext, "txt") || same_text(ext, "md") || same_text(ext, "rs") || same_text(ext, "py")
        || same_text(ext, "js") || same_text(ext, "ts") || same_text(ext, "json") || same_text(
        ext,
        "toml",
    ) || same_text(ext, "yaml") || same_text(ext, "yml") || same_text(ext, "xml") || same_text(
        ext,
        "html",
    ) || same_text(ext, "css") || same_text(ext, "sh") || same_text(ext, "zsh") || same_text(
        ext,
        "bash",
    ) || same_text(ext, "c") || same_text(ext, "cpp") || same_text(ext, "h") || same_text(
        ext,
        "hpp",
    ) || same_text(ext, "java") || same_text(ext, "go") || same_text(ext, "rb") || same_text(
        ext,
        "php",
    ) || same_text(ext, "swift") || same_text(ext, "kt") || same_text(ext, "scala") || same_text(
        ext,
        "clj",
    ) || same_text(ext, "lua") || same_text(ext, "vim") || same_text(ext, "conf") || same_text(
        ext,
        "config",
    ) || same_text(ext, "ini") || same_text(ext, "log") || same_text(ext, "csv") || same_text(
        ext,
        "tsv",
    )
}

impl RecentFiles {
    /// An empty list that keeps twenty files.
    pub fn new() -> (list: Self)
        ensures
            list.max_files == 20,
            list.entries@.len() == 0,
    {
        Self { max_files: 20, entries: Vec::new() }
    }

    /// A list of the given entries that keeps twenty files.
    pub fn from_entries(entries: Vec<RecentFileEntry>) -> (list: Self)
        ensures
            list.max_files == 20,
            list.entries == entries,
    {
        Self { max_files: 20, entries }
    }

    /// Whether the list keeps a file with this path.
    pub fn is_text_file(path: &str) -> (text: bool)
        ensures
            text == is_text_path(path@),
    {
        let ext = to_lowercase(extension_of(path).as_str());
        text_extension(ext.as_str())
    }

    /// Puts `entry` first in the list, removes the file's earlier entries,
    /// and cuts the list to its size.
    pub fn add_entry(&mut self, entry: RecentFileEntry)
        ensures
            final(self).max_files == old(self).max_files,
            final(self).entries@ == with_file(
                old(self).entries@,
                entry,
                old(self).max_files as nat,
            ),
    {
        let ghost orig = self.entries@;
        let n: usize = self.entries.len();
        let mut i: usize = 0;
        let mut k: usize = 0;
        assert(self.entries@ =~= without_path(orig, entry.path@, 0) + orig.subrange(0, n as int));
        while k < n
            invariant
                i <= k <= n,
                n == orig.len(),
                self.max_files == old(self).max_files,
                i == without_path(orig, entry.path@, k as nat).len(),
                self.entries@ == without_path(orig, entry.path@, k as nat) + orig.subrange(
                    k as int,
                    n as int,
                ),
            decreases n - k,
        {
            let ghost kept = without_path(orig, entry.path@, k as nat);
            assert(self.entries@[i as int] == orig.subrange(k as int, n as int)[0]);
            if self.entries[i].path == entry.path {
                self.entries.remove(i);
                assert(self.entries@ =~= kept + orig.subrange(k + 1, n as int));
            } else {
                assert(self.entries@ =~= kept.push(orig[k as int]) + orig.subrange(
                    k + 1,
                    n as int,
                ));
                i += 1;
            }
            k += 1;
        }
        assert(self.entries@ =~= without_path(orig, entry.path@, n as nat));
        self.entries.insert(0, entry);
        assert(self.entries@ =~= seq![entry] + without_path(orig, entry.path@, n as nat));
        if self.entries.len() > self.max_files {
            self.entries.truncate(self.max_files);
        }
    }

    /// Records that the file `path` was opened at `opened_at`. A file that
    /// is no text file leaves the list as it is.
    pub fn add_file(&mut self, path: &str, opened_at: u64)
        ensures
            final(self).max_files == old(self).max_files,
            !is_text_path(path@) ==> final(self).entries@ == old(self).entries@,
            is_text_path(path@) ==> exists|entry: RecentFileEntry|
                entry.path@ == path@ && entry.opened_at == opened_at && final(self).entries@
                    == with_file(old(self).entries@, entry, old(self).max_files as nat),
    {
        if !Self::is_text_file(path) {
            return ;
        }
        let entry = RecentFileEntry { path: path.to_owned(), opened_at };
        self.add_entry(entry);
    }

    /// The paths of the files, the latest first.
    pub fn get_files(&self) -> (paths: Vec<String>)
        ensures
            paths@.len() == self.entries@.len(),
            forall|i: int| 0 <= i < paths@.len() ==> (#[trigger] paths@[i])@ == self.entries@[i].path@,
    {
        let mut paths: Vec<String> = Vec::new();
        let n: usize = self.entries.len();
        let mut i: usize = 0;
        while i < n
            invariant
                i <= n,
                n == self.entries@.len(),
                paths@.len() == i,
                forall|j: int| 0 <= j < i ==> (#[trigger] paths@[j])@ == self.entries@[j].path@,
            decreases n - i,
        {
            paths.push(self.entries[i].path.clone());
            i += 1;
        }
        paths
    }
}

/// The name of a new text file that is made at the time `stamp`.
pub fn new_file_name(stamp: &str) -> (name: String)
    ensures
        name@ == "new_file_"@ + stamp@ + ".txt"@,
{
    let mut name = "new_file_".to_owned();
    name.append(stamp);
    name.append(".txt");
    name
}

/// Removing a file's entries leaves no entry of that file and no more
/// entries than there were.
pub proof fn lemma_without_path(entries: Seq<RecentFileEntry>, path: Seq<char>, k: nat)
    requires
        k <= entries.len(),
    ensures
        without_path(entries, path, k).len() <= k,
        forall|i: int|
            0 <= i < without_path(entries, path, k).len() ==> (#[trigger] without_path(
                entries,
                path,
                k,
            )[i]).path@ != path,
    decreases k,
{
    if k > 0 {
        lemma_without_path(entries, path, (k - 1) as nat);
    }
}

/// After a file was opened the list holds no more entries than it keeps,
/// the file stands first if the list keeps any, and no entry behind it is
/// of that file.
pub proof fn lemma_with_file(entries: Seq<RecentFileEntry>, entry: RecentFileEntry, max_files: nat)
    ensures
        with_file(entries, entry, max_files).len() <= max_files,
        with_file(entries, entry, max_files).len() <= entries.len() + 1,
        max_files > 0 ==> with_file(entries, entry, max_files).len() > 0 && with_file(
            entries,
            entry,
            max_files,
        )[0] == entry,
        forall|i: int|
            1 <= i < with_file(entries, entry, max_files).len() ==> (#[trigger] with_file(
                entries,
                entry,
                max_files,
            )[i]).path@ != entry.path@,
{
    lemma_without_path(entries, entry.path@, entries.len());
    let rest = without_path(entries, entry.path@, entries.len());
    let all = seq![entry] + rest;
    assert forall|i: int| 1 <= i < with_file(entries, entry, max_files).len() implies (
    #[trigger] with_file(entries, entry, max_files)[i]).path@ != entry.path@ by {
        assert(with_file(entries, entry, max_files)[i] == all[i]);
        assert(all[i] == rest[i - 1]);
    }
}

} // verus!
