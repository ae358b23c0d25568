use vstd::prelude::*;

use crate::resolve::{
    flat_candidate, index_candidate, lookup, make_flat_candidate, make_index_candidate, parent_dir,
    parent_of, join_path, FileState, FileStateV, FsEntryV, FsSnapshot,
};
use crate::rewrite::{lemma_rewrite_use_noop, rewrite_use, rewrite_use_tree, use_free_of_marker};
use crate::resolve::push_component;
use crate::tree::{
    clone_strings, decl_fully_expanded, decls_all_inline_from, decls_fully_expanded_from,
    externs_decl, externs_decls_from, externs_tree, lemma_decls_fully_expanded_pointwise,
    lemma_view_decls_concat, lemma_view_strings_concat, lemma_view_tree, tree_all_inline,
    tree_fully_expanded, view_decl, view_decls, view_opt_path, view_strings, view_tree, Decl,
    DeclV, SourceTree, TreeV,
};

verus! {

// ===================== outcomes =====================

/// Spec-level outcome of expanding a run of declarations.
#[verifier::ext_equal]
pub enum StepV {
    /// The run expanded fully: the declarations that replace it, and the
    /// names of the external-dependency declarations removed from it, in
    /// order of removal.
    Done { decls: Seq<DeclV>, externs: Seq<Seq<char>> },
    /// Expansion needs the file at `path`, read and parsed under qualifier
    /// `qual`, and no answer for it is in the snapshot yet.
    NeedFile { path: Seq<Seq<char>>, qual: Seq<char> },
    /// No file backs the module `module`: none of its candidates under `dir`
    /// exists.
    Missing { module: Seq<char>, dir: Seq<Seq<char>> },
    /// The module nesting is deeper than the fuel allows.
    Depth,
}

/// Spec-level outcome of expanding a tree.
#[verifier::ext_equal]
pub enum ExpandV {
    Done { tree: TreeV, externs: Seq<Seq<char>> },
    NeedFile { path: Seq<Seq<char>>, qual: Seq<char> },
    Missing { module: Seq<char>, dir: Seq<Seq<char>> },
    Depth,
}

/// Outcome of expanding a run of declarations.
#[derive(Debug, PartialEq, Eq)]
pub enum StepOutcome {
    Done { decls: Vec<Decl>, externs: Vec<String> },
    NeedFile { path: Vec<String>, qual: String },
    Missing { module: String, dir: Vec<String> },
    Depth,
}

/// Outcome of expanding a tree: either the fully expanded tree together with
/// the removed external-dependency names, or the question or failure that
/// stopped the expansion.
#[derive(Debug, PartialEq, Eq)]
pub enum ExpandOutcome {
    /// Expansion finished; no file-backed module and no external-dependency
    /// declaration is left in `tree`.
    Done { tree: SourceTree, externs: Vec<String> },
    /// The caller must read and parse the file at `path` under qualifier
    /// `qual`, record the answer in the snapshot, and run the expansion
    /// again.
    NeedFile { path: Vec<String>, qual: String },
    /// No file backs the module `module` under directory `dir`.
    Missing { module: String, dir: Vec<String> },
    /// The module nesting is deeper than the fuel allows.
    Depth,
}

/// The view of a step outcome.
pub open spec fn view_step(s: StepOutcome) -> StepV {
    match s {
        StepOutcome::Done { decls, externs } => StepV::Done {
            decls: view_decls(decls@),
            externs: view_strings(externs@),
        },
        StepOutcome::NeedFile { path, qual } => StepV::NeedFile {
            path: view_strings(path@),
            qual: qual@,
        },
        StepOutcome::Missing { module, dir } => StepV::Missing {
            module: module@,
            dir: view_strings(dir@),
        },
        StepOutcome::Depth => StepV::Depth,
    }
}

impl View for StepOutcome {
    type V = StepV;

    open spec fn view(&self) -> StepV {
        view_step(*self)
    }
}

/// The view of an expansion outcome.
pub open spec fn view_expand(s: ExpandOutcome) -> ExpandV {
    match s {
        ExpandOutcome::Done { tree, externs } => ExpandV::Done {
            tree: view_tree(tree),
            externs: view_strings(externs@),
        },
        ExpandOutcome::NeedFile { path, qual } => ExpandV::NeedFile {
            path: view_strings(path@),
            qual: qual@,
        },
        ExpandOutcome::Missing { module, dir } => ExpandV::Missing {
            module: module@,
            dir: view_strings(dir@),
        },
        ExpandOutcome::Depth => ExpandV::Depth,
    }
}

impl View for ExpandOutcome {
    type V = ExpandV;

    open spec fn view(&self) -> ExpandV {
        view_expand(*self)
    }
}

// ===================== the expansion, in the model =====================

/// Expansion of one tree: its declarations are expanded in order, and the
/// tree keeps its root attribute handle.
pub open spec fn spec_expand_tree(
    t: TreeV,
    dir: Seq<Seq<char>>,
    qual: Seq<char>,
    fs: Seq<FsEntryV>,
    fuel: nat,
) -> ExpandV
    decreases fuel, t.decls.len() + 1, 0int,
{
    match spec_expand_decls(t.decls, 0, dir, qual, fs, fuel) {
        StepV::Done { decls, externs } => ExpandV::Done {
            tree: TreeV { meta: t.meta, decls },
            externs,
        },
        StepV::NeedFile { path, qual } => ExpandV::NeedFile { path, qual },
        StepV::Missing { module, dir } => ExpandV::Missing { module, dir },
        StepV::Depth => ExpandV::Depth,
    }
}

/// Expansion of the declarations of `s` from index `i` on: each declaration
/// is expanded in turn, and the results are concatenated; the first question
/// or failure stops the run.
pub open spec fn spec_expand_decls(
    s: Seq<DeclV>,
    i: int,
    dir: Seq<Seq<char>>,
    qual: Seq<char>,
    fs: Seq<FsEntryV>,
    fuel: nat,
) -> StepV
    decreases fuel, s.len() - i, 1int,
{
    if i < 0 || i >= s.len() {
        StepV::Done { decls: Seq::empty(), externs: Seq::empty() }
    } else {
        match spec_expand_decl(s[i], dir, qual, fs, fuel) {
            StepV::Done { decls: d0, externs: e0 } => match spec_expand_decls(
                s,
                i + 1,
                dir,
                qual,
                fs,
                fuel,
            ) {
                StepV::Done { decls: d1, externs: e1 } => StepV::Done {
                    decls: d0 + d1,
                    externs: e0 + e1,
                },
                other => other,
            },
            other => other,
        }
    }
}

/// Expansion of a spliced or inline module body: the body is expanded under
/// its own directory, and the module keeps its name, explicit-path attribute
/// and opaque handle.
pub open spec fn spec_splice(
    name: Seq<char>,
    path_attr: Option<Seq<Seq<char>>>,
    meta: int,
    body: TreeV,
    body_dir: Seq<Seq<char>>,
    qual: Seq<char>,
    fs: Seq<FsEntryV>,
    fuel: nat,
) -> StepV
    decreases fuel, body.decls.len() + 2, 0int,
{
    match spec_expand_tree(body, body_dir, qual, fs, fuel) {
        ExpandV::Done { tree, externs } => StepV::Done {
            decls: seq![DeclV::Module { name, path_attr, body: Some(tree), meta }],
            externs,
        },
        ExpandV::NeedFile { path, qual } => StepV::NeedFile { path, qual },
        ExpandV::Missing { module, dir } => StepV::Missing { module, dir },
        ExpandV::Depth => StepV::Depth,
    }
}

/// Expansion of one declaration.
///
/// An external-dependency declaration is removed, its name recorded. An
/// import is rewritten for the current qualifier. An opaque declaration
/// passes through. A module with an inline body is entered under `dir/<name>`
/// with the same qualifier. A file-backed module is resolved to a file: the
/// explicit path attribute if one is present, else the flat file
/// `dir/<name>.<ext>`, else the directory-index file `dir/<name>/<index>`;
/// the first that exists wins, and if none exists the module is missing. The
/// resolved file's parsed tree becomes the inline body, expanded under the
/// resolved file's directory.
pub open spec fn spec_expand_decl(
    d: DeclV,
    dir: Seq<Seq<char>>,
    qual: Seq<char>,
    fs: Seq<FsEntryV>,
    fuel: nat,
) -> StepV
    decreases fuel, 0int, 0int,
{
    match d {
        DeclV::ExternCrateRef { name, meta } => StepV::Done {
            decls: Seq::empty(),
            externs: seq![name],
        },
        DeclV::Import { tree, meta } => StepV::Done {
            decls: seq![DeclV::Import { tree: rewrite_use(tree, qual), meta }],
            externs: Seq::empty(),
        },
        DeclV::Other { meta } => StepV::Done { decls: seq![d], externs: Seq::empty() },
        DeclV::Module { name, path_attr, body, meta } => {
            if fuel == 0 {
                StepV::Depth
            } else {
                let less: nat = (fuel - 1) as nat;
                match body {
                    Some(b) => spec_splice(
                        name,
                        path_attr,
                        meta,
                        b,
                        dir.push(name),
                        qual,
                        fs,
                        less,
                    ),
                    None => match path_attr {
                        Some(rel) => {
                            let file = dir + rel;
                            match lookup(fs, file, qual) {
                                None => StepV::NeedFile { path: file, qual },
                                Some(FileStateV::Absent) => StepV::Missing { module: name, dir },
                                Some(FileStateV::Parsed(t2)) => spec_splice(
                                    name,
                                    path_attr,
                                    meta,
                                    t2,
                                    parent_dir(file),
                                    qual,
                                    fs,
                                    less,
                                ),
                            }
                        },
                        None => {
                            let flat = flat_candidate(dir, name);
                            match lookup(fs, flat, qual) {
                                None => StepV::NeedFile { path: flat, qual },
                                Some(FileStateV::Parsed(t2)) => spec_splice(
                                    name,
                                    path_attr,
                                    meta,
                                    t2,
                                    dir,
                                    qual,
                                    fs,
                                    less,
                                ),
                                Some(FileStateV::Absent) => {
                                    let idx = index_candidate(dir, name);
                                    match lookup(fs, idx, qual) {
                                        None => StepV::NeedFile { path: idx, qual },
                                        Some(FileStateV::Parsed(t2)) => spec_splice(
                                            name,
                                            path_attr,
                                            meta,
                                            t2,
                                            dir.push(name),
                                            qual,
                                            fs,
                                            less,
                                        ),
                                        Some(FileStateV::Absent) => StepV::Missing {
                                            module: name,
                                            dir,
                                        },
                                    }
                                },
                            }
                        },
                    },
                }
            }
        },
    }
}

// ===================== the expansion, executable =====================

/// Expands one tree: resolves and splices every file-backed module, rewrites
/// every self-relative import for the given qualifier, and removes every
/// external-dependency declaration, recording its name. `dir` is the
/// directory of the file that `t` was parsed from, `qual` the crate
/// qualifier (empty for the root crate), `fs` the answered file questions so
/// far, and `fuel` a bound on the module nesting depth.
pub fn expand_tree(
    t: &SourceTree,
    dir: &Vec<String>,
    qual: &String,
    fs: &FsSnapshot,
    fuel: u64,
) -> (r: ExpandOutcome)
    ensures
        r@ == spec_expand_tree(t@, view_strings(dir@), qual@, fs@, fuel as nat),
    decreases fuel, t.decls@.len() + 1, 0int,
{
    proof {
        lemma_view_tree(*t);
    }
    match expand_decls(&t.decls, 0, dir, qual, fs, fuel) {
        StepOutcome::Done { decls, externs } => {
            let out = SourceTree { meta: t.meta, decls };
            proof {
                lemma_view_tree(out);
            }
            ExpandOutcome::Done { tree: out, externs }
        },
        StepOutcome::NeedFile { path, qual } => ExpandOutcome::NeedFile { path, qual },
        StepOutcome::Missing { module, dir } => ExpandOutcome::Missing { module, dir },
        StepOutcome::Depth => ExpandOutcome::Depth,
    }
}

/// Expands the declarations of `s` from index `i` on.
fn expand_decls(
    s: &Vec<Decl>,
    i: usize,
    dir: &Vec<String>,
    qual: &String,
    fs: &FsSnapshot,
    fuel: u64,
) -> (r: StepOutcome)
    requires
        i <= s@.len(),
    ensures
        r@ == spec_expand_decls(
            view_decls(s@),
            i as int,
            view_strings(dir@),
            qual@,
            fs@,
            fuel as nat,
        ),
    decreases fuel, s@.len() - i, 1int,
{
    if i >= s.len() {
        let r = StepOutcome::Done { decls: Vec::new(), externs: Vec::new() };
        proof {
            assert(view_decls(Seq::<Decl>::empty()) =~= Seq::<DeclV>::empty());
            assert(view_strings(Seq::<String>::empty()) =~= Seq::<Seq<char>>::empty());
        }
        r
    } else {
        let r0 = expand_decl(&s[i], dir, qual, fs, fuel);
        proof {
            assert(view_decls(s@)[i as int] == view_decl(s@[i as int]));
        }
        match r0 {
            StepOutcome::Done { decls: d0, externs: e0 } => {
                match expand_decls(s, i + 1, dir, qual, fs, fuel) {
                    StepOutcome::Done { decls: d1, externs: e1 } => {
                        let mut d0 = d0;
                        let mut d1 = d1;
                        let mut e0 = e0;
                        let mut e1 = e1;
                        proof {
                            lemma_view_decls_concat(d0@, d1@);
                            lemma_view_strings_concat(e0@, e1@);
                        }
                        d0.append(&mut d1);
                        e0.append(&mut e1);
                        StepOutcome::Done { decls: d0, externs: e0 }
                    },
                    other => other,
                }
            },
            other => other,
        }
    }
}

/// Expands a spliced or inline module body under its own directory and wraps
/// the module declaration around the result.
fn splice_module(
    name: &String,
    path_attr: &Option<Vec<String>>,
    meta: u64,
    body: &SourceTree,
    body_dir: &Vec<String>,
    qual: &String,
    fs: &FsSnapshot,
    fuel: u64,
) -> (r: StepOutcome)
    ensures
        r@ == spec_splice(
            name@,
            view_opt_path(*path_attr),
            meta as int,
            body@,
            view_strings(body_dir@),
            qual@,
            fs@,
            fuel as nat,
        ),
    decreases fuel, body.decls@.len() + 2, 0int,
{
    match expand_tree(body, body_dir, qual, fs, fuel) {
        ExpandOutcome::Done { tree, externs } => {
            let pa: Option<Vec<String>> = match path_attr {
                Some(p) => Some(clone_strings(p, 0)),
                None => None,
            };
            proof {
                match (path_attr, &pa) {
                    (Some(p), Some(p2)) => {
                        assert(p2@ =~= p@);
                    },
                    _ => {},
                }
            }
            let mut decls: Vec<Decl> = Vec::new();
            decls.push(
                Decl::Module { name: name.clone(), path_attr: pa, body: Some(tree), meta },
            );
            proof {
                assert(view_decls(decls@) =~= seq![view_decl(decls@[0])]);
            }
            StepOutcome::Done { decls, externs }
        },
        ExpandOutcome::NeedFile { path, qual } => StepOutcome::NeedFile { path, qual },
        ExpandOutcome::Missing { module, dir } => StepOutcome::Missing { module, dir },
        ExpandOutcome::Depth => StepOutcome::Depth,
    }
}

/// Expands one declaration.
fn expand_decl(d: &Decl, dir: &Vec<String>, qual: &String, fs: &FsSnapshot, fuel: u64) -> (r:
    StepOutcome)
    ensures
        r@ == spec_expand_decl(d@, view_strings(dir@), qual@, fs@, fuel as nat),
    decreases fuel, 0int, 1int,
{
    match d {
        Decl::ExternCrateRef { name, meta } => {
            let mut externs: Vec<String> = Vec::new();
            externs.push(name.clone());
            proof {
                assert(view_strings(externs@) =~= seq![name@]);
                assert(view_decls(Seq::<Decl>::empty()) =~= Seq::<DeclV>::empty());
            }
            StepOutcome::Done { decls: Vec::new(), externs }
        },
        Decl::Import { tree, meta } => {
            let new_tree = rewrite_use_tree(tree, qual);
            let mut decls: Vec<Decl> = Vec::new();
            decls.push(Decl::Import { tree: new_tree, meta: *meta });
            proof {
                assert(view_decls(decls@) =~= seq![view_decl(decls@[0])]);
                assert(view_strings(Seq::<String>::empty()) =~= Seq::<Seq<char>>::empty());
            }
            StepOutcome::Done { decls, externs: Vec::new() }
        },
        Decl::Other { meta } => {
            let mut decls: Vec<Decl> = Vec::new();
            decls.push(Decl::Other { meta: *meta });
            proof {
                assert(view_decls(decls@) =~= seq![view_decl(decls@[0])]);
                assert(view_strings(Seq::<String>::empty()) =~= Seq::<Seq<char>>::empty());
            }
            StepOutcome::Done { decls, externs: Vec::new() }
        },
        Decl::Module { name, path_attr, body, meta } => {
            if fuel == 0 {
                StepOutcome::Depth
            } else {
                match body {
                    Some(b) => {
                        let body_dir = push_component(dir, name.clone());
                        splice_module(name, path_attr, *meta, b, &body_dir, qual, fs, fuel - 1)
                    },
                    None => match path_attr {
                        Some(rel) => {
                            let file = join_path(dir, rel);
                            match fs.find(&file, qual) {
                                None => StepOutcome::NeedFile {
                                    path: file,
                                    qual: qual.clone(),
                                },
                                Some(FileState::Absent) => StepOutcome::Missing {
                                    module: name.clone(),
                                    dir: clone_strings(dir, 0),
                                },
                                Some(FileState::Parsed(t2)) => {
                                    let body_dir = parent_of(&file);
                                    splice_module(
                                        name,
                                        path_attr,
                                        *meta,
                                        t2,
                                        &body_dir,
                                        qual,
                                        fs,
                                        fuel - 1,
                                    )
                                },
                            }
                        },
                        None => {
                            let flat = make_flat_candidate(dir, name);
                            match fs.find(&flat, qual) {
                                None => StepOutcome::NeedFile {
                                    path: flat,
                                    qual: qual.clone(),
                                },
                                Some(FileState::Parsed(t2)) => splice_module(
                                    name,
                                    path_attr,
                                    *meta,
                                    t2,
                                    dir,
                                    qual,
                                    fs,
                                    fuel - 1,
                                ),
                                Some(FileState::Absent) => {
                                    let idx = make_index_candidate(dir, name);
                                    match fs.find(&idx, qual) {
                                        None => StepOutcome::NeedFile {
                                            path: idx,
                                            qual: qual.clone(),
                                        },
                                        Some(FileState::Parsed(t2)) => {
                                            let body_dir = push_component(dir, name.clone());
                                            splice_module(
                                                name,
                                                path_attr,
                                                *meta,
                                                t2,
                                                &body_dir,
                                                qual,
                                                fs,
                                                fuel - 1,
                                            )
                                        },
                                        Some(FileState::Absent) => StepOutcome::Missing {
                                            module: name.clone(),
                                            dir: clone_strings(dir, 0),
                                        },
                                    }
                                },
                            }
                        },
                    },
                }
            }
        },
    }
}

// ===================== laws =====================

/// Law: whatever the expansion finishes with contains zero file-backed
/// module nodes and zero external-dependency declaration nodes.
pub proof fn lemma_expand_tree_fully_expanded(
    t: TreeV,
    dir: Seq<Seq<char>>,
    qual: Seq<char>,
    fs: Seq<FsEntryV>,
    fuel: nat,
)
    ensures
        (spec_expand_tree(t, dir, qual, fs, fuel) matches ExpandV::Done { tree, .. }
            ==> tree_fully_expanded(tree)),
    decreases fuel, t.decls.len() + 1, 0int,
{
    lemma_expand_decls_fully_expanded(t.decls, 0, dir, qual, fs, fuel);
}

proof fn lemma_expand_decls_fully_expanded(
    s: Seq<DeclV>,
    i: int,
    dir: Seq<Seq<char>>,
    qual: Seq<char>,
    fs: Seq<FsEntryV>,
    fuel: nat,
)
    ensures
        (spec_expand_decls(s, i, dir, qual, fs, fuel) matches StepV::Done { decls, .. }
            ==> decls_fully_expanded_from(decls, 0)),
    decreases fuel, s.len() - i, 1int,
{
    if 0 <= i < s.len() {
        lemma_expand_decl_fully_expanded(s[i], dir, qual, fs, fuel);
        lemma_expand_decls_fully_expanded(s, i + 1, dir, qual, fs, fuel);
        match spec_expand_decl(s[i], dir, qual, fs, fuel) {
            StepV::Done { decls: d0, externs: e0 } => {
                match spec_expand_decls(s, i + 1, dir, qual, fs, fuel) {
                    StepV::Done { decls: d1, .. } => {
                        lemma_decls_fully_expanded_pointwise(d0, 0);
                        lemma_decls_fully_expanded_pointwise(d1, 0);
                        lemma_decls_fully_expanded_pointwise(d0 + d1, 0);
                        assert forall|j: int| 0 <= j < (d0 + d1).len() implies decl_fully_expanded(
                            (d0 + d1)[j],
                        ) by {
                            if j < d0.len() {
                                assert((d0 + d1)[j] == d0[j]);
                            } else {
                                assert((d0 + d1)[j] == d1[j - d0.len()]);
                            }
                        }
                    },
                    _ => {},
                }
            },
            _ => {},
        }
    }
}

proof fn lemma_splice_fully_expanded(
    name: Seq<char>,
    path_attr: Option<Seq<Seq<char>>>,
    meta: int,
    body: TreeV,
    body_dir: Seq<Seq<char>>,
    qual: Seq<char>,
    fs: Seq<FsEntryV>,
    fuel: nat,
)
    ensures
        (spec_splice(name, path_attr, meta, body, body_dir, qual, fs, fuel) matches StepV::Done {
            decls,
            ..
        } ==> decls_fully_expanded_from(decls, 0)),
    decreases fuel, body.decls.len() + 2, 0int,
{
    lemma_expand_tree_fully_expanded(body, body_dir, qual, fs, fuel);
    match spec_expand_tree(body, body_dir, qual, fs, fuel) {
        ExpandV::Done { tree, .. } => {
            let md = DeclV::Module { name, path_attr, body: Some(tree), meta };
            let out = seq![md];
            assert(out[0] == md);
            assert(decl_fully_expanded(md));
            assert(decls_fully_expanded_from(out, 1));
            assert(decls_fully_expanded_from(out, 0));
        },
        _ => {},
    }
}

proof fn lemma_expand_decl_fully_expanded(
    d: DeclV,
    dir: Seq<Seq<char>>,
    qual: Seq<char>,
    fs: Seq<FsEntryV>,
    fuel: nat,
)
    ensures
        (spec_expand_decl(d, dir, qual, fs, fuel) matches StepV::Done { decls, .. }
            ==> decls_fully_expanded_from(decls, 0)),
    decreases fuel, 0int, 0int,
{
    match d {
        DeclV::Module { name, path_attr, body, meta } => {
            if fuel > 0 {
                let less: nat = (fuel - 1) as nat;
                match body {
                    Some(b) => {
                        lemma_splice_fully_expanded(
                            name,
                            path_attr,
                            meta,
                            b,
                            dir.push(name),
                            qual,
                            fs,
                            less,
                        );
                    },
                    None => {
                        match path_attr {
                            Some(rel) => {
                                let file = dir + rel;
                                match lookup(fs, file, qual) {
                                    Some(FileStateV::Parsed(t2)) => {
                                        lemma_splice_fully_expanded(
                                            name,
                                            path_attr,
                                            meta,
                                            t2,
                                            parent_dir(file),
                                            qual,
                                            fs,
                                            less,
                                        );
                                    },
                                    _ => {},
                                }
                            },
                            None => {
                                let flat = flat_candidate(dir, name);
                                match lookup(fs, flat, qual) {
                                    Some(FileStateV::Parsed(t2)) => {
                                        lemma_splice_fully_expanded(
                                            name,
                                            path_attr,
                                            meta,
                                            t2,
                                            dir,
                                            qual,
                                            fs,
                                            less,
                                        );
                                    },
                                    Some(FileStateV::Absent) => {
                                        let idx = index_candidate(dir, name);
                                        match lookup(fs, idx, qual) {
                                            Some(FileStateV::Parsed(t2)) => {
                                                lemma_splice_fully_expanded(
                                                    name,
                                                    path_attr,
                                                    meta,
                                                    t2,
                                                    dir.push(name),
                                                    qual,
                                                    fs,
                                                    less,
                                                );
                                            },
                                            _ => {},
                                        }
                                    },
                                    _ => {},
                                }
                            },
                        }
                    },
                }
            }
        },
        DeclV::Import { tree, meta } => {
            let md = DeclV::Import { tree: rewrite_use(tree, qual), meta };
            let out = seq![md];
            assert(out[0] == md);
            assert(decl_fully_expanded(md));
            assert(decls_fully_expanded_from(out, 1));
            assert(decls_fully_expanded_from(out, 0));
        },
        DeclV::Other { meta } => {
            let out = seq![d];
            assert(out[0] == d);
            assert(decl_fully_expanded(d));
            assert(decls_fully_expanded_from(out, 1));
            assert(decls_fully_expanded_from(out, 0));
        },
        DeclV::ExternCrateRef { .. } => {},
    }
}

/// Law: when every module of the input tree already carries an inline body,
/// a finished expansion hands back exactly the names of the tree's
/// external-dependency declarations, in the order a depth-first walk meets
/// them: the removed declarations stay observable through that list.
pub proof fn lemma_expand_tree_externs(
    t: TreeV,
    dir: Seq<Seq<char>>,
    qual: Seq<char>,
    fs: Seq<FsEntryV>,
    fuel: nat,
)
    requires
        tree_all_inline(t),
    ensures
        (spec_expand_tree(t, dir, qual, fs, fuel) matches ExpandV::Done { externs, .. } ==> externs
            == externs_tree(t)),
    decreases fuel, t.decls.len() + 1, 0int,
{
    lemma_expand_decls_externs(t.decls, 0, dir, qual, fs, fuel);
}

proof fn lemma_expand_decls_externs(
    s: Seq<DeclV>,
    i: int,
    dir: Seq<Seq<char>>,
    qual: Seq<char>,
    fs: Seq<FsEntryV>,
    fuel: nat,
)
    requires
        decls_all_inline_from(s, i),
    ensures
        (spec_expand_decls(s, i, dir, qual, fs, fuel) matches StepV::Done { externs, .. } ==> externs
            == externs_decls_from(s, i)),
    decreases fuel, s.len() - i, 1int,
{
    if 0 <= i < s.len() {
        lemma_expand_decl_externs(s[i], dir, qual, fs, fuel);
        lemma_expand_decls_externs(s, i + 1, dir, qual, fs, fuel);
    } else {
        assert(externs_decls_from(s, i) =~= Seq::<Seq<char>>::empty());
    }
}

proof fn lemma_expand_decl_externs(
    d: DeclV,
    dir: Seq<Seq<char>>,
    qual: Seq<char>,
    fs: Seq<FsEntryV>,
    fuel: nat,
)
    requires
        crate::tree::decl_all_inline(d),
    ensures
        (spec_expand_decl(d, dir, qual, fs, fuel) matches StepV::Done { externs, .. } ==> externs
            == externs_decl(d)),
    decreases fuel, 0int, 0int,
{
    match d {
        DeclV::Module { name, path_attr, body, meta } => {
            if fuel > 0 {
                match body {
                    Some(b) => {
                        lemma_expand_tree_externs(b, dir.push(name), qual, fs, (fuel - 1) as nat);
                    },
                    None => {},
                }
            }
        },
        DeclV::ExternCrateRef { name, .. } => {},
        DeclV::Import { .. } => {
            assert(externs_decl(d) =~= Seq::<Seq<char>>::empty());
        },
        DeclV::Other { .. } => {
            assert(externs_decl(d) =~= Seq::<Seq<char>>::empty());
        },
    }
}

/// True when a declaration is none of the kinds the expansion acts on: not a
/// module, not an external-dependency declaration, and, if an import, free
/// of the self-relative marker.
pub open spec fn decl_plain(d: DeclV) -> bool {
    match d {
        DeclV::Module { .. } => false,
        DeclV::ExternCrateRef { .. } => false,
        DeclV::Import { tree, .. } => use_free_of_marker(tree),
        DeclV::Other { .. } => true,
    }
}

/// True when every declaration of `s[i..]` is plain.
pub open spec fn decls_plain_from(s: Seq<DeclV>, i: int) -> bool
    decreases s.len() - i,
{
    if i < 0 || i >= s.len() {
        true
    } else {
        decl_plain(s[i]) && decls_plain_from(s, i + 1)
    }
}

/// True when every declaration of the tree is plain: the tree holds no
/// module declaration, no external-dependency declaration, and no import
/// that begins with the marker.
pub open spec fn tree_plain(t: TreeV) -> bool {
    decls_plain_from(t.decls, 0)
}

proof fn lemma_expand_plain_decls(
    s: Seq<DeclV>,
    i: int,
    dir: Seq<Seq<char>>,
    qual: Seq<char>,
    fs: Seq<FsEntryV>,
    fuel: nat,
)
    requires
        0 <= i <= s.len(),
        decls_plain_from(s, i),
    ensures
        spec_expand_decls(s, i, dir, qual, fs, fuel) == (StepV::Done {
            decls: s.subrange(i, s.len() as int),
            externs: Seq::empty(),
        }),
    decreases s.len() - i,
{
    if i < s.len() {
        let d = s[i];
        assert(spec_expand_decl(d, dir, qual, fs, fuel) == (StepV::Done {
            decls: seq![d],
            externs: Seq::<Seq<char>>::empty(),
        })) by {
            match d {
                DeclV::Import { tree, meta } => {
                    lemma_rewrite_use_noop(tree, qual);
                    assert(DeclV::Import { tree: rewrite_use(tree, qual), meta } == d);
                    assert(seq![DeclV::Import { tree: rewrite_use(tree, qual), meta }] =~= seq![d]);
                },
                _ => {},
            }
        }
        lemma_expand_plain_decls(s, i + 1, dir, qual, fs, fuel);
        assert(seq![s[i]] + s.subrange(i + 1, s.len() as int) =~= s.subrange(i, s.len() as int));
        assert(Seq::<Seq<char>>::empty() + Seq::<Seq<char>>::empty() =~= Seq::<
            Seq<char>,
        >::empty());
    } else {
        assert(s.subrange(i, s.len() as int) =~= Seq::<DeclV>::empty());
    }
}

/// Law: a tree with no module declarations (nor external-dependency
/// declarations, nor marker-leading imports) comes out of the expansion
/// unchanged, with no recorded names, whatever the directory, the qualifier,
/// the snapshot and the fuel.
pub proof fn lemma_expand_plain_tree(
    t: TreeV,
    dir: Seq<Seq<char>>,
    qual: Seq<char>,
    fs: Seq<FsEntryV>,
    fuel: nat,
)
    requires
        tree_plain(t),
    ensures
        spec_expand_tree(t, dir, qual, fs, fuel) == (ExpandV::Done {
            tree: t,
            externs: Seq::empty(),
        }),
{
    lemma_expand_plain_decls(t.decls, 0, dir, qual, fs, fuel);
    assert(t.decls.subrange(0, t.decls.len() as int) =~= t.decls);
    assert(TreeV { meta: t.meta, decls: t.decls } =~= t);
}

} // verus!
