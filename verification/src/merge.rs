use vstd::prelude::*;
use vstd::string::StrSliceExecFns;
use vstd::string::StringExecFns;

use crate::error::BundleError;

use crate::expand::{expand_tree, lemma_expand_plain_tree, lemma_expand_tree_fully_expanded,
    spec_expand_tree, tree_plain, ExpandOutcome, ExpandV};
use crate::resolve::{join_path, lookup, parent_dir, parent_of, FileState, FileStateV, FsEntryV,
    FsSnapshot};
use crate::tree::{clone_strings, decl_fully_expanded, decls_fully_expanded_from,
    lemma_decls_fully_expanded_pointwise, lemma_view_decls_concat, lemma_view_strings_concat,
    lemma_view_tree, tree_fully_expanded, view_decl, view_decls, view_strings, view_tree, Decl,
    DeclV, SourceTree, TreeV};

verus! {

// ===================== identifiers =====================

/// True when `c` may start an identifier.
pub open spec fn is_ident_start(c: char) -> bool {
    (('a' as u32) <= (c as u32) && (c as u32) <= ('z' as u32)) || (('A' as u32) <= (c as u32) && (
    c as u32) <= ('Z' as u32)) || c == '_'
}

/// True when `c` may continue an identifier.
pub open spec fn is_ident_continue(c: char) -> bool {
    is_ident_start(c) || (('0' as u32) <= (c as u32) && (c as u32) <= ('9' as u32))
}

/// A valid identifier: nonempty, starting with a letter or an underscore,
/// continuing with letters, digits and underscores.
pub open spec fn is_valid_ident(s: Seq<char>) -> bool {
    s.len() > 0 && is_ident_start(s[0]) && (forall|i: int|
        0 < i < s.len() ==> is_ident_continue(s[i]))
}

/// Decides whether `c` may start an identifier.
fn ident_start(c: char) -> (r: bool)
    ensures
        r == is_ident_start(c),
{
    let u = c as u32;
    (('a' as u32) <= u && u <= ('z' as u32)) || (('A' as u32) <= u && u <= ('Z' as u32)) || c == '_'
}

/// Decides whether `c` may continue an identifier.
fn ident_continue(c: char) -> (r: bool)
    ensures
        r == is_ident_continue(c),
{
    ident_start(c) || (('0' as u32) <= (c as u32) && (c as u32) <= ('9' as u32))
}

/// Decides whether `s` is a valid identifier.
pub fn check_ident(s: &String) -> (r: bool)
    ensures
        r == is_valid_ident(s@),
{
    let st = s.as_str();
    let n = st.unicode_len();
    if n == 0 {
        return false;
    }
    if !ident_start(st.get_char(0)) {
        return false;
    }
    check_ident_from(st, 1)
}

/// Decides whether the characters of `s` from index `i` on may continue an
/// identifier.
fn check_ident_from(s: &str, i: usize) -> (r: bool)
    requires
        i <= s@.len(),
    ensures
        r == (forall|j: int| i <= j < s@.len() ==> is_ident_continue(s@[j])),
    decreases s@.len() - i,
{
    if i >= s.unicode_len() {
        true
    } else if ident_continue(s.get_char(i)) {
        check_ident_from(s, i + 1)
    } else {
        false
    }
}

// ===================== crate-name normalization =====================

/// The identifier-safe form of a crate name: every `-` becomes `_`.
pub open spec fn normalize_name(s: Seq<char>) -> Seq<char> {
    Seq::new(s.len(), |i: int| if s[i] == '-' { '_' } else { s[i] })
}

/// Builds the identifier-safe form of a crate name.
pub fn normalize_crate_name(name: &String) -> (r: String)
    ensures
        r@ == normalize_name(name@),
{
    let st = name.as_str();
    let n = st.unicode_len();
    let mut out = String::new();
    let mut i: usize = 0;
    while i < n
        invariant
            n == st@.len(),
            st@ == name@,
            i <= n,
            out@ == normalize_name(name@).subrange(0, i as int),
        decreases n - i,
    {
        let c = st.get_char(i);
        if c == '-' {
            proof {
                reveal_strlit("_");
            }
            out.append("_");
        } else {
            let piece = st.substring_char(i, i + 1);
            out.append(piece);
        }
        i = i + 1;
        proof {
            assert(out@ =~= normalize_name(name@).subrange(0, i as int));
        }
    }
    proof {
        assert(normalize_name(name@).subrange(0, n as int) =~= normalize_name(name@));
    }
    out
}

/// Decides whether some string of `v` has the view `s`.
fn contains_string(v: &Vec<String>, s: &String) -> (r: bool)
    ensures
        r == view_strings(v@).contains(s@),
{
    let r = contains_string_from(v, s, 0);
    proof {
        if r {
            let j = choose|j: int| 0 <= j < v@.len() && v@[j]@ == s@;
            assert(view_strings(v@)[j] == s@);
        } else {
            if view_strings(v@).contains(s@) {
                let j = choose|j: int|
                    0 <= j < view_strings(v@).len() && view_strings(v@)[j] == s@;
                assert(v@[j]@ == s@);
            }
        }
    }
    r
}

/// Decides whether some string of `v[i..]` has the view `s`.
fn contains_string_from(v: &Vec<String>, s: &String, i: usize) -> (r: bool)
    requires
        i <= v@.len(),
    ensures
        r == (exists|j: int| i <= j < v@.len() && v@[j]@ == s@),
    decreases v@.len() - i,
{
    if i >= v.len() {
        false
    } else if v[i] == *s {
        true
    } else {
        contains_string_from(v, s, i + 1)
    }
}

// ===================== crate descriptors =====================

/// One dependency crate, as the build-metadata provider hands it over: its
/// raw name, the directory its sources live under, and its entry file
/// relative to that directory.
#[derive(Debug, PartialEq, Eq)]
pub struct CrateDescriptor {
    pub name: String,
    pub root_dir: Vec<String>,
    pub entry: Vec<String>,
}

/// Spec-level form of `CrateDescriptor`.
#[verifier::ext_equal]
pub struct CrateDescriptorV {
    pub name: Seq<char>,
    pub root_dir: Seq<Seq<char>>,
    pub entry: Seq<Seq<char>>,
}

impl View for CrateDescriptor {
    type V = CrateDescriptorV;

    open spec fn view(&self) -> CrateDescriptorV {
        CrateDescriptorV {
            name: self.name@,
            root_dir: view_strings(self.root_dir@),
            entry: view_strings(self.entry@),
        }
    }
}

/// The views of a run of crate descriptors.
pub open spec fn view_crates(s: Seq<CrateDescriptor>) -> Seq<CrateDescriptorV> {
    Seq::new(s.len(), |i: int| s[i]@)
}

// ===================== outcomes =====================

/// Spec-level outcome of merging the dependency crates.
#[verifier::ext_equal]
pub enum CratesStepV {
    Done { containers: Seq<DeclV>, externs: Seq<Seq<char>> },
    NeedFile { path: Seq<Seq<char>>, qual: Seq<char> },
    Missing { module: Seq<char>, dir: Seq<Seq<char>> },
    InvalidName { name: Seq<char> },
    Depth,
}

/// Spec-level outcome of merging a whole project.
#[verifier::ext_equal]
pub enum MergeV {
    Done { tree: TreeV, externs: Seq<Seq<char>> },
    NeedFile { path: Seq<Seq<char>>, qual: Seq<char> },
    Missing { module: Seq<char>, dir: Seq<Seq<char>> },
    InvalidName { name: Seq<char> },
    Depth,
}

/// Outcome of merging the dependency crates.
#[derive(Debug, PartialEq, Eq)]
pub enum CratesOutcome {
    Done { containers: Vec<Decl>, externs: Vec<String> },
    NeedFile { path: Vec<String>, qual: String },
    Missing { module: String, dir: Vec<String> },
    InvalidName { name: String },
    Depth,
}

/// Outcome of merging a whole project: the merged tree with the removed
/// external-dependency names, a file question to answer, or the failure that
/// stopped the merge.
#[derive(Debug, PartialEq, Eq)]
pub enum MergeOutcome {
    /// The merge finished: `tree` holds the root crate's expanded
    /// declarations followed by one namespace container per dependency
    /// crate; `externs` names every removed external-dependency declaration.
    Done { tree: SourceTree, externs: Vec<String> },
    /// The caller must read and parse the file at `path` under qualifier
    /// `qual`, record the answer in the snapshot, and run the merge again.
    NeedFile { path: Vec<String>, qual: String },
    /// No file backs the module `module` under `dir`; for a crate's entry
    /// file, `module` is the crate's qualifier (empty for the root crate)
    /// and `dir` the entry path itself.
    Missing { module: String, dir: Vec<String> },
    /// A crate's normalized name is not a valid identifier.
    InvalidName { name: String },
    /// The module nesting is deeper than the fuel allows.
    Depth,
}

/// The view of a crates outcome.
pub open spec fn view_crates_outcome(s: CratesOutcome) -> CratesStepV {
    match s {
        CratesOutcome::Done { containers, externs } => CratesStepV::Done {
            containers: view_decls(containers@),
            externs: view_strings(externs@),
        },
        CratesOutcome::NeedFile { path, qual } => CratesStepV::NeedFile {
            path: view_strings(path@),
            qual: qual@,
        },
        CratesOutcome::Missing { module, dir } => CratesStepV::Missing {
            module: module@,
            dir: view_strings(dir@),
        },
        CratesOutcome::InvalidName { name } => CratesStepV::InvalidName { name: name@ },
        CratesOutcome::Depth => CratesStepV::Depth,
    }
}

impl View for CratesOutcome {
    type V = CratesStepV;

    open spec fn view(&self) -> CratesStepV {
        view_crates_outcome(*self)
    }
}

/// The view of a merge outcome.
pub open spec fn view_merge(s: MergeOutcome) -> MergeV {
    match s {
        MergeOutcome::Done { tree, externs } => MergeV::Done {
            tree: view_tree(tree),
            externs: view_strings(externs@),
        },
        MergeOutcome::NeedFile { path, qual } => MergeV::NeedFile {
            path: view_strings(path@),
            qual: qual@,
        },
        MergeOutcome::Missing { module, dir } => MergeV::Missing {
            module: module@,
            dir: view_strings(dir@),
        },
        MergeOutcome::InvalidName { name } => MergeV::InvalidName { name: name@ },
        MergeOutcome::Depth => MergeV::Depth,
    }
}

impl View for MergeOutcome {
    type V = MergeV;

    open spec fn view(&self) -> MergeV {
        view_merge(*self)
    }
}

impl MergeOutcome {
    /// The failure this outcome reports, as an error carrying a message;
    /// `None` for a finished merge or an open file question.
    pub fn failure(&self) -> (r: Option<BundleError>)
        ensures
            match self {
                MergeOutcome::Missing { module, .. } => (r matches Some(e) && e@
                    == "module file not found: "@ + module@),
                MergeOutcome::InvalidName { name } => (r matches Some(e) && e@
                    == "crate name is not a valid identifier: "@ + name@),
                MergeOutcome::Depth => (r matches Some(e) && e@ == "module nesting is too deep"@),
                _ => r is None,
            },
    {
        match self {
            MergeOutcome::Missing { module, .. } => {
                let mut m = String::from_str("module file not found: ");
                m.append(module.as_str());
                Some(BundleError::new(m.as_str()))
            },
            MergeOutcome::InvalidName { name } => {
                let mut m = String::from_str("crate name is not a valid identifier: ");
                m.append(name.as_str());
                Some(BundleError::new(m.as_str()))
            },
            MergeOutcome::Depth => Some(BundleError::new("module nesting is too deep")),
            _ => None,
        }
    }
}

// ===================== the merge, in the model =====================

/// The namespace container wrapping one expanded dependency crate: a module
/// named after the crate, whose opaque handle is the crate's own root
/// handle, so the crate's root attributes stay with its container.
pub open spec fn container(name: Seq<char>, tree: TreeV) -> DeclV {
    DeclV::Module { name, path_attr: None, body: Some(tree), meta: tree.meta }
}

/// Merge of the dependency crates from index `k` on. Each crate's name is
/// normalized and must be a valid identifier; one container is created per
/// name, even when the name occurs more than once; each crate's entry tree
/// is expanded with the normalized name as qualifier, under the entry file's
/// directory.
pub open spec fn spec_merge_crates(
    crates: Seq<CrateDescriptorV>,
    k: int,
    used: Seq<Seq<char>>,
    fs: Seq<FsEntryV>,
    fuel: nat,
) -> CratesStepV
    decreases crates.len() - k,
{
    if k < 0 || k >= crates.len() {
        CratesStepV::Done { containers: Seq::empty(), externs: Seq::empty() }
    } else {
        let norm = normalize_name(crates[k].name);
        if !is_valid_ident(norm) {
            CratesStepV::InvalidName { name: norm }
        } else if used.contains(norm) {
            spec_merge_crates(crates, k + 1, used, fs, fuel)
        } else {
            let entry_path = crates[k].root_dir + crates[k].entry;
            match lookup(fs, entry_path, norm) {
                None => CratesStepV::NeedFile { path: entry_path, qual: norm },
                Some(FileStateV::Absent) => CratesStepV::Missing {
                    module: norm,
                    dir: entry_path,
                },
                Some(FileStateV::Parsed(t)) => match spec_expand_tree(
                    t,
                    parent_dir(entry_path),
                    norm,
                    fs,
                    fuel,
                ) {
                    ExpandV::Done { tree, externs } => match spec_merge_crates(
                        crates,
                        k + 1,
                        used.push(norm),
                        fs,
                        fuel,
                    ) {
                        CratesStepV::Done { containers, externs: e2 } => CratesStepV::Done {
                            containers: seq![container(norm, tree)] + containers,
                            externs: externs + e2,
                        },
                        other => other,
                    },
                    ExpandV::NeedFile { path, qual } => CratesStepV::NeedFile { path, qual },
                    ExpandV::Missing { module, dir } => CratesStepV::Missing { module, dir },
                    ExpandV::Depth => CratesStepV::Depth,
                },
            }
        }
    }
}

/// Merge of a whole project: the root crate's entry tree is expanded with
/// the empty qualifier; every dependency crate is expanded under its
/// normalized name and wrapped in one namespace container; the containers
/// follow the root's own declarations as trailing siblings.
pub open spec fn spec_merge(
    root_entry: Seq<Seq<char>>,
    crates: Seq<CrateDescriptorV>,
    fs: Seq<FsEntryV>,
    fuel: nat,
) -> MergeV {
    match lookup(fs, root_entry, Seq::empty()) {
        None => MergeV::NeedFile { path: root_entry, qual: Seq::empty() },
        Some(FileStateV::Absent) => MergeV::Missing { module: Seq::empty(), dir: root_entry },
        Some(FileStateV::Parsed(t)) => match spec_expand_tree(
            t,
            parent_dir(root_entry),
            Seq::empty(),
            fs,
            fuel,
        ) {
            ExpandV::Done { tree, externs } => match spec_merge_crates(
                crates,
                0,
                Seq::empty(),
                fs,
                fuel,
            ) {
                CratesStepV::Done { containers, externs: e2 } => MergeV::Done {
                    tree: TreeV { meta: tree.meta, decls: tree.decls + containers },
                    externs: externs + e2,
                },
                CratesStepV::NeedFile { path, qual } => MergeV::NeedFile { path, qual },
                CratesStepV::Missing { module, dir } => MergeV::Missing { module, dir },
                CratesStepV::InvalidName { name } => MergeV::InvalidName { name },
                CratesStepV::Depth => MergeV::Depth,
            },
            ExpandV::NeedFile { path, qual } => MergeV::NeedFile { path, qual },
            ExpandV::Missing { module, dir } => MergeV::Missing { module, dir },
            ExpandV::Depth => MergeV::Depth,
        },
    }
}


/// True when a declaration has the shape of a namespace container: a module
/// with an inline body and no explicit-path attribute.
pub open spec fn is_container(d: DeclV) -> bool {
    match d {
        DeclV::Module { path_attr, body, .. } => path_attr is None && body is Some,
        _ => false,
    }
}

/// The name a namespace container carries.
pub open spec fn container_name(d: DeclV) -> Seq<char> {
    match d {
        DeclV::Module { name, .. } => name,
        _ => Seq::empty(),
    }
}

/// Law: every appended namespace container is a module whose name is a valid
/// identifier; no name repeats one already used, and the names are pairwise
/// distinct — each crate contributes at most one container.
pub proof fn lemma_merge_crates_containers_unique(
    crates: Seq<CrateDescriptorV>,
    k: int,
    used: Seq<Seq<char>>,
    fs: Seq<FsEntryV>,
    fuel: nat,
)
    ensures
        (spec_merge_crates(crates, k, used, fs, fuel) matches CratesStepV::Done {
            containers,
            ..
        } ==> {
            &&& forall|i: int| 0 <= i < containers.len() ==> is_container(#[trigger] containers[i])
            &&& forall|i: int|
                0 <= i < containers.len() ==> is_valid_ident(
                    container_name(#[trigger] containers[i]),
                )
            &&& forall|i: int|
                0 <= i < containers.len() ==> !used.contains(
                    container_name(#[trigger] containers[i]),
                )
            &&& forall|i: int, j: int|
                0 <= i < j < containers.len() ==> container_name(#[trigger] containers[i])
                    != container_name(#[trigger] containers[j])
        }),
    decreases crates.len() - k,
{
    if 0 <= k < crates.len() {
        let norm = normalize_name(crates[k].name);
        if is_valid_ident(norm) {
            if used.contains(norm) {
                lemma_merge_crates_containers_unique(crates, k + 1, used, fs, fuel);
            } else {
                let entry_path = crates[k].root_dir + crates[k].entry;
                match lookup(fs, entry_path, norm) {
                    Some(FileStateV::Parsed(t)) => {
                        match spec_expand_tree(t, parent_dir(entry_path), norm, fs, fuel) {
                            ExpandV::Done { tree, .. } => {
                                let grown = used.push(norm);
                                lemma_merge_crates_containers_unique(crates, k + 1, grown, fs, fuel);
                                assert forall|x: Seq<char>| grown.contains(x) <==> (used.contains(x)
                                    || x == norm) by {
                                    if used.contains(x) {
                                        let i = choose|i: int|
                                            0 <= i < used.len() && used[i] == x;
                                        assert(grown[i] == x);
                                    }
                                    if x == norm {
                                        assert(grown[used.len() as int] == x);
                                    }
                                    if grown.contains(x) {
                                        let i = choose|i: int|
                                            0 <= i < grown.len() && grown[i] == x;
                                        if i < used.len() {
                                            assert(used[i] == x);
                                        }
                                    }
                                }
                                match spec_merge_crates(crates, k + 1, grown, fs, fuel) {
                                    CratesStepV::Done { containers: rest, .. } => {
                                        let c = container(norm, tree);
                                        let all = seq![c] + rest;
                                        assert(all[0] == c);
                                        assert forall|j: int| 1 <= j < all.len() implies all[j]
                                            == rest[j - 1] by {}
                                        assert(is_container(c));
                                        assert(container_name(c) == norm);
                                    },
                                    _ => {},
                                }
                            },
                            _ => {},
                        }
                    },
                    _ => {},
                }
            }
        }
    }
}

// ===================== the merge, executable =====================

/// Merges the dependency crates from index `k` on; `used` holds the
/// normalized names already wrapped in a container.
fn merge_crates(
    crates: &Vec<CrateDescriptor>,
    k: usize,
    used: Vec<String>,
    fs: &FsSnapshot,
    fuel: u64,
) -> (r: CratesOutcome)
    requires
        k <= crates@.len(),
    ensures
        r@ == spec_merge_crates(
            view_crates(crates@),
            k as int,
            view_strings(used@),
            fs@,
            fuel as nat,
        ),
    decreases crates@.len() - k,
{
    if k >= crates.len() {
        proof {
            assert(view_decls(Seq::<Decl>::empty()) =~= Seq::<DeclV>::empty());
            assert(view_strings(Seq::<String>::empty()) =~= Seq::<Seq<char>>::empty());
        }
        CratesOutcome::Done { containers: Vec::new(), externs: Vec::new() }
    } else {
        let desc = &crates[k];
        proof {
            assert(view_crates(crates@)[k as int] == crates@[k as int]@);
        }
        let norm = normalize_crate_name(&desc.name);
        if !check_ident(&norm) {
            CratesOutcome::InvalidName { name: norm }
        } else if contains_string(&used, &norm) {
            merge_crates(crates, k + 1, used, fs, fuel)
        } else {
            let entry_path = join_path(&desc.root_dir, &desc.entry);
            match fs.find(&entry_path, &norm) {
                None => CratesOutcome::NeedFile { path: entry_path, qual: norm },
                Some(FileState::Absent) => CratesOutcome::Missing {
                    module: norm,
                    dir: entry_path,
                },
                Some(FileState::Parsed(t)) => {
                    let entry_dir = parent_of(&entry_path);
                    match expand_tree(t, &entry_dir, &norm, fs, fuel) {
                        ExpandOutcome::Done { tree, externs } => {
                            let ghost norm_v = norm@;
                            let ghost used0 = view_strings(used@);
                            let mut used = used;
                            used.push(norm.clone());
                            proof {
                                assert(view_strings(used@) =~= used0.push(norm_v));
                            }
                            match merge_crates(crates, k + 1, used, fs, fuel) {
                                CratesOutcome::Done { containers, externs: e2 } => {
                                    let tree_meta = tree.meta;
                                    let wrapped = Decl::Module {
                                        name: norm,
                                        path_attr: None,
                                        body: Some(tree),
                                        meta: tree_meta,
                                    };
                                    let mut all: Vec<Decl> = Vec::new();
                                    all.push(wrapped);
                                    let mut containers = containers;
                                    let mut externs = externs;
                                    let mut e2 = e2;
                                    proof {
                                        lemma_view_decls_concat(all@, containers@);
                                        lemma_view_strings_concat(externs@, e2@);
                                        assert(view_decls(all@) =~= seq![view_decl(all@[0])]);
                                    }
                                    all.append(&mut containers);
                                    externs.append(&mut e2);
                                    CratesOutcome::Done { containers: all, externs }
                                },
                                other => other,
                            }
                        },
                        ExpandOutcome::NeedFile { path, qual } => CratesOutcome::NeedFile {
                            path,
                            qual,
                        },
                        ExpandOutcome::Missing { module, dir } => CratesOutcome::Missing {
                            module,
                            dir,
                        },
                        ExpandOutcome::Depth => CratesOutcome::Depth,
                    }
                },
            }
        }
    }
}

/// Merges a whole project, as far as the snapshot allows: expands the root
/// crate's entry tree (empty qualifier), expands every dependency crate
/// under its normalized name, wraps each in one namespace container, and
/// appends the containers after the root's declarations.
pub fn merge_project(
    root_entry: &Vec<String>,
    crates: &Vec<CrateDescriptor>,
    fs: &FsSnapshot,
    fuel: u64,
) -> (r: MergeOutcome)
    ensures
        r@ == spec_merge(view_strings(root_entry@), view_crates(crates@), fs@, fuel as nat),
{
    let empty_qual = String::new();
    proof {
        assert(view_strings(Seq::<String>::empty()) =~= Seq::<Seq<char>>::empty());
    }
    match fs.find(root_entry, &empty_qual) {
        None => {
            let path = clone_strings(root_entry, 0);
            proof {
                assert(path@ =~= root_entry@);
            }
            MergeOutcome::NeedFile { path, qual: empty_qual }
        },
        Some(FileState::Absent) => {
            let dir = clone_strings(root_entry, 0);
            proof {
                assert(dir@ =~= root_entry@);
            }
            MergeOutcome::Missing { module: String::new(), dir }
        },
        Some(FileState::Parsed(t)) => {
            let root_dir = parent_of(root_entry);
            match expand_tree(t, &root_dir, &empty_qual, fs, fuel) {
                ExpandOutcome::Done { tree, externs } => {
                    proof {
                        lemma_view_tree(tree);
                    }
                    let tree_meta = tree.meta;
                    match merge_crates(crates, 0, Vec::new(), fs, fuel) {
                        CratesOutcome::Done { containers, externs: e2 } => {
                            let mut decls = tree.decls;
                            let mut containers = containers;
                            let mut externs = externs;
                            let mut e2 = e2;
                            proof {
                                lemma_view_decls_concat(decls@, containers@);
                                lemma_view_strings_concat(externs@, e2@);
                            }
                            decls.append(&mut containers);
                            externs.append(&mut e2);
                            let out = SourceTree { meta: tree_meta, decls };
                            proof {
                                lemma_view_tree(out);
                            }
                            MergeOutcome::Done { tree: out, externs }
                        },
                        CratesOutcome::NeedFile { path, qual } => MergeOutcome::NeedFile {
                            path,
                            qual,
                        },
                        CratesOutcome::Missing { module, dir } => MergeOutcome::Missing {
                            module,
                            dir,
                        },
                        CratesOutcome::InvalidName { name } => MergeOutcome::InvalidName { name },
                        CratesOutcome::Depth => MergeOutcome::Depth,
                    }
                },
                ExpandOutcome::NeedFile { path, qual } => MergeOutcome::NeedFile { path, qual },
                ExpandOutcome::Missing { module, dir } => MergeOutcome::Missing { module, dir },
                ExpandOutcome::Depth => MergeOutcome::Depth,
            }
        },
    }
}


// ===================== laws =====================

/// Law: the merged tree contains zero file-backed module nodes and zero
/// external-dependency declaration nodes, at any depth.
pub proof fn lemma_merge_fully_expanded(
    root_entry: Seq<Seq<char>>,
    crates: Seq<CrateDescriptorV>,
    fs: Seq<FsEntryV>,
    fuel: nat,
)
    ensures
        (spec_merge(root_entry, crates, fs, fuel) matches MergeV::Done { tree, .. }
            ==> tree_fully_expanded(tree)),
{
    match lookup(fs, root_entry, Seq::empty()) {
        Some(FileStateV::Parsed(t)) => {
            lemma_expand_tree_fully_expanded(t, parent_dir(root_entry), Seq::empty(), fs, fuel);
            lemma_merge_crates_fully_expanded(crates, 0, Seq::empty(), fs, fuel);
            match spec_expand_tree(t, parent_dir(root_entry), Seq::empty(), fs, fuel) {
                ExpandV::Done { tree, .. } => {
                    match spec_merge_crates(crates, 0, Seq::empty(), fs, fuel) {
                        CratesStepV::Done { containers, .. } => {
                            let all = tree.decls + containers;
                            lemma_decls_fully_expanded_pointwise(tree.decls, 0);
                            lemma_decls_fully_expanded_pointwise(containers, 0);
                            lemma_decls_fully_expanded_pointwise(all, 0);
                            assert forall|j: int| 0 <= j < all.len() implies decl_fully_expanded(
                                all[j],
                            ) by {
                                if j < tree.decls.len() {
                                    assert(all[j] == tree.decls[j]);
                                } else {
                                    assert(all[j] == containers[j - tree.decls.len()]);
                                }
                            }
                        },
                        _ => {},
                    }
                },
                _ => {},
            }
        },
        _ => {},
    }
}

proof fn lemma_merge_crates_fully_expanded(
    crates: Seq<CrateDescriptorV>,
    k: int,
    used: Seq<Seq<char>>,
    fs: Seq<FsEntryV>,
    fuel: nat,
)
    ensures
        (spec_merge_crates(crates, k, used, fs, fuel) matches CratesStepV::Done {
            containers,
            ..
        } ==> decls_fully_expanded_from(containers, 0)),
    decreases crates.len() - k,
{
    if 0 <= k < crates.len() {
        let norm = normalize_name(crates[k].name);
        if is_valid_ident(norm) {
            if used.contains(norm) {
                lemma_merge_crates_fully_expanded(crates, k + 1, used, fs, fuel);
            } else {
                let entry_path = crates[k].root_dir + crates[k].entry;
                match lookup(fs, entry_path, norm) {
                    Some(FileStateV::Parsed(t)) => {
                        lemma_expand_tree_fully_expanded(
                            t,
                            parent_dir(entry_path),
                            norm,
                            fs,
                            fuel,
                        );
                        lemma_merge_crates_fully_expanded(crates, k + 1, used.push(norm), fs, fuel);
                        match spec_expand_tree(t, parent_dir(entry_path), norm, fs, fuel) {
                            ExpandV::Done { tree, .. } => {
                                match spec_merge_crates(crates, k + 1, used.push(norm), fs, fuel) {
                                    CratesStepV::Done { containers: rest, .. } => {
                                        let c = container(norm, tree);
                                        let all = seq![c] + rest;
                                        assert(decl_fully_expanded(c));
                                        lemma_decls_fully_expanded_pointwise(rest, 0);
                                        lemma_decls_fully_expanded_pointwise(all, 0);
                                        assert forall|j: int|
                                            0 <= j < all.len() implies decl_fully_expanded(
                                            all[j],
                                        ) by {
                                            if j == 0 {
                                                assert(all[0] == c);
                                            } else {
                                                assert(all[j] == rest[j - 1]);
                                            }
                                        }
                                    },
                                    _ => {},
                                }
                            },
                            _ => {},
                        }
                    },
                    _ => {},
                }
            }
        }
    }
}

/// Law: with no dependency crates and a root entry whose tree holds no
/// module declaration (nor external-dependency declaration, nor
/// marker-leading import), the merged output is structurally identical to
/// the parsed input, with no recorded names.
pub proof fn lemma_merge_plain_root(
    root_entry: Seq<Seq<char>>,
    t: TreeV,
    fs: Seq<FsEntryV>,
    fuel: nat,
)
    requires
        lookup(fs, root_entry, Seq::empty()) == Some(FileStateV::Parsed(t)),
        tree_plain(t),
    ensures
        spec_merge(root_entry, Seq::empty(), fs, fuel) == (MergeV::Done {
            tree: t,
            externs: Seq::empty(),
        }),
{
    lemma_expand_plain_tree(t, parent_dir(root_entry), Seq::empty(), fs, fuel);
    assert(t.decls + Seq::<DeclV>::empty() =~= t.decls);
    assert(Seq::<Seq<char>>::empty() + Seq::<Seq<char>>::empty() =~= Seq::<Seq<char>>::empty());
    assert(TreeV { meta: t.meta, decls: t.decls } =~= t);
}

} // verus!

