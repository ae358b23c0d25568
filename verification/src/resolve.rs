use vstd::prelude::*;
use vstd::string::StrSliceExecFns;
use vstd::string::StringExecFns;

use crate::tree::{clone_strings, view_strings, view_tree, SourceTree, TreeV};

verus! {

// ===================== paths =====================

/// Decides whether two component paths are the same.
pub fn strings_eq(a: &Vec<String>, b: &Vec<String>) -> (r: bool)
    ensures
        r == (view_strings(a@) == view_strings(b@)),
{
    if a.len() != b.len() {
        proof {
            assert(view_strings(a@).len() != view_strings(b@).len());
        }
        return false;
    }
    let r = strings_eq_from(a, b, 0);
    proof {
        if r {
            assert(view_strings(a@) =~= view_strings(b@));
        } else {
            assert(view_strings(a@) != view_strings(b@)) by {
                if view_strings(a@) == view_strings(b@) {
                    assert forall|j: int| 0 <= j < a@.len() implies a@[j]@ == b@[j]@ by {
                        assert(view_strings(a@)[j] == view_strings(b@)[j]);
                    }
                }
            }
        }
    }
    r
}

/// Decides whether the components of `a` and `b` agree from index `i` on.
fn strings_eq_from(a: &Vec<String>, b: &Vec<String>, i: usize) -> (r: bool)
    requires
        a@.len() == b@.len(),
        i <= a@.len(),
    ensures
        r == (forall|j: int| i <= j < a@.len() ==> a@[j]@ == b@[j]@),
    decreases a@.len() - i,
{
    if i >= a.len() {
        true
    } else if a[i] == b[i] {
        strings_eq_from(a, b, i + 1)
    } else {
        false
    }
}

/// The directory holding a path: the path without its last component; the
/// empty path is its own directory.
pub open spec fn parent_dir(p: Seq<Seq<char>>) -> Seq<Seq<char>> {
    if p.len() == 0 {
        p
    } else {
        p.drop_last()
    }
}

/// The directory holding a path.
pub fn parent_of(p: &Vec<String>) -> (r: Vec<String>)
    ensures
        view_strings(r@) == parent_dir(view_strings(p@)),
{
    let mut r = clone_strings(p, 0);
    proof {
        assert(r@ =~= p@);
    }
    if r.len() > 0 {
        r.pop();
    }
    proof {
        assert(view_strings(r@) =~= parent_dir(view_strings(p@)));
    }
    r
}

/// One path under another: the components of both, in order.
pub fn join_path(dir: &Vec<String>, parts: &Vec<String>) -> (r: Vec<String>)
    ensures
        view_strings(r@) == view_strings(dir@) + view_strings(parts@),
{
    let mut r = clone_strings(dir, 0);
    let mut rest = clone_strings(parts, 0);
    r.append(&mut rest);
    proof {
        assert(view_strings(r@) =~= view_strings(dir@) + view_strings(parts@));
    }
    r
}

/// One more component under a directory.
pub fn push_component(dir: &Vec<String>, name: String) -> (r: Vec<String>)
    ensures
        view_strings(r@) == view_strings(dir@).push(name@),
{
    let mut r = clone_strings(dir, 0);
    r.push(name);
    proof {
        assert(view_strings(r@) =~= view_strings(dir@).push(name@));
    }
    r
}

// ===================== file-name candidates =====================

/// The extension of a flat module file, with its separating dot.
pub open spec fn flat_suffix() -> Seq<char> {
    seq!['.', 'r', 's']
}

/// The name of a directory-index module file.
pub open spec fn index_file_name() -> Seq<char> {
    seq!['m', 'o', 'd', '.', 'r', 's']
}

/// The flat-file candidate for a module: `dir/<name>.<ext>`.
pub open spec fn flat_candidate(dir: Seq<Seq<char>>, name: Seq<char>) -> Seq<Seq<char>> {
    dir.push(name + flat_suffix())
}

/// The directory-index candidate for a module: `dir/<name>/<index>`.
pub open spec fn index_candidate(dir: Seq<Seq<char>>, name: Seq<char>) -> Seq<Seq<char>> {
    dir.push(name).push(index_file_name())
}

/// Builds the flat-file candidate for a module.
pub fn make_flat_candidate(dir: &Vec<String>, name: &String) -> (r: Vec<String>)
    ensures
        view_strings(r@) == flat_candidate(view_strings(dir@), name@),
{
    let file = name.clone().concat(".rs");
    proof {
        reveal_strlit(".rs");
        assert(".rs"@ =~= flat_suffix());
    }
    push_component(dir, file)
}

/// Builds the directory-index candidate for a module.
pub fn make_index_candidate(dir: &Vec<String>, name: &String) -> (r: Vec<String>)
    ensures
        view_strings(r@) == index_candidate(view_strings(dir@), name@),
{
    let mut r = push_component(dir, name.clone());
    let index_name = String::from_str("mod.rs");
    proof {
        reveal_strlit("mod.rs");
        assert("mod.rs"@ =~= index_file_name());
    }
    r.push(index_name);
    proof {
        assert(view_strings(r@) =~= index_candidate(view_strings(dir@), name@));
    }
    r
}

// ===================== the filesystem snapshot =====================

/// What the filesystem held at one path, as handed back by the caller that
/// reads files: a parsed source tree, or nothing at that path.
#[derive(Debug, PartialEq, Eq)]
pub enum FileState {
    Parsed(SourceTree),
    Absent,
}

/// Spec-level form of `FileState`.
#[verifier::ext_equal]
pub enum FileStateV {
    Parsed(TreeV),
    Absent,
}

/// The view of a file state.
pub open spec fn view_file_state(s: FileState) -> FileStateV {
    match s {
        FileState::Parsed(t) => FileStateV::Parsed(view_tree(t)),
        FileState::Absent => FileStateV::Absent,
    }
}

impl View for FileState {
    type V = FileStateV;

    open spec fn view(&self) -> FileStateV {
        view_file_state(*self)
    }
}

/// One answered file question: the path asked about, the qualifier under
/// which it was asked, and what the filesystem held there.
#[derive(Debug, PartialEq, Eq)]
pub struct FsEntry {
    pub path: Vec<String>,
    pub qual: String,
    pub state: FileState,
}

/// Spec-level form of `FsEntry`.
#[verifier::ext_equal]
pub struct FsEntryV {
    pub path: Seq<Seq<char>>,
    pub qual: Seq<char>,
    pub state: FileStateV,
}

impl View for FsEntry {
    type V = FsEntryV;

    open spec fn view(&self) -> FsEntryV {
        FsEntryV { path: view_strings(self.path@), qual: self.qual@, state: self.state@ }
    }
}

/// The answered file questions of one run, in the order they were answered.
/// The expansion consults it and never changes it; the caller grows it with
/// one answer after each request for a file.
#[derive(Debug, PartialEq, Eq)]
pub struct FsSnapshot {
    pub entries: Vec<FsEntry>,
}

impl View for FsSnapshot {
    type V = Seq<FsEntryV>;

    open spec fn view(&self) -> Seq<FsEntryV> {
        Seq::new(self.entries@.len(), |i: int| self.entries@[i]@)
    }
}

/// The answer recorded in `entries[i..]` for `path` under `qual`, if any: the
/// first entry for that question wins.
pub open spec fn lookup_from(
    entries: Seq<FsEntryV>,
    path: Seq<Seq<char>>,
    qual: Seq<char>,
    i: int,
) -> Option<FileStateV>
    decreases entries.len() - i,
{
    if i < 0 || i >= entries.len() {
        None
    } else if entries[i].path == path && entries[i].qual == qual {
        Some(entries[i].state)
    } else {
        lookup_from(entries, path, qual, i + 1)
    }
}

/// The answer recorded for `path` under `qual`, if any.
pub open spec fn lookup(entries: Seq<FsEntryV>, path: Seq<Seq<char>>, qual: Seq<char>) -> Option<
    FileStateV,
> {
    lookup_from(entries, path, qual, 0)
}

impl FsSnapshot {
    /// A snapshot with no answers yet.
    pub fn new() -> (r: FsSnapshot)
        ensures
            r@ == Seq::<FsEntryV>::empty(),
    {
        let r = FsSnapshot { entries: Vec::new() };
        proof {
            assert(r@ =~= Seq::<FsEntryV>::empty());
        }
        r
    }

    /// Records one more answer.
    pub fn record(&mut self, path: Vec<String>, qual: String, state: FileState)
        ensures
            final(self)@ == old(self)@.push(
                FsEntryV { path: view_strings(path@), qual: qual@, state: state@ },
            ),
    {
        let ghost entry_v = FsEntryV { path: view_strings(path@), qual: qual@, state: state@ };
        self.entries.push(FsEntry { path, qual, state });
        proof {
            assert(self@ =~= old(self)@.push(entry_v));
        }
    }

    /// Finds the answer recorded for `path` under `qual`, if any.
    pub fn find(&self, path: &Vec<String>, qual: &String) -> (r: Option<&FileState>)
        ensures
            match r {
                Some(s) => lookup(self@, view_strings(path@), qual@) == Some(s@),
                None => lookup(self@, view_strings(path@), qual@) is None,
            },
    {
        self.find_from(path, qual, 0)
    }

    /// Finds the answer recorded in `entries[i..]` for `path` under `qual`.
    fn find_from(&self, path: &Vec<String>, qual: &String, i: usize) -> (r: Option<&FileState>)
        requires
            i <= self.entries@.len(),
        ensures
            match r {
                Some(s) => lookup_from(self@, view_strings(path@), qual@, i as int) == Some(s@),
                None => lookup_from(self@, view_strings(path@), qual@, i as int) is None,
            },
        decreases self.entries@.len() - i,
    {
        if i >= self.entries.len() {
            None
        } else {
            let entry = &self.entries[i];
            if strings_eq(&entry.path, path) && entry.qual == *qual {
                proof {
                    assert(self@[i as int] == self.entries@[i as int]@);
                    assert(self@[i as int].path == view_strings(path@));
                    assert(self@[i as int].qual == qual@);
                    assert(lookup_from(self@, view_strings(path@), qual@, i as int) == Some(
                        self@[i as int].state,
                    ));
                }
                Some(&entry.state)
            } else {
                proof {
                    assert(self@[i as int] == self.entries@[i as int]@);
                    assert(!(self@[i as int].path == view_strings(path@) && self@[i as int].qual
                        == qual@));
                }
                self.find_from(path, qual, i + 1)
            }
        }
    }
}

} // verus!
