use rustpack::expand::{expand_tree, ExpandOutcome};
use rustpack::merge::{merge_project, CrateDescriptor, MergeOutcome};
use rustpack::resolve::{FileState, FsSnapshot};
use rustpack::tree::{Decl, SourceTree, UseTreeNode};

fn s(x: &str) -> String {
    x.to_string()
}

fn path(xs: &[&str]) -> Vec<String> {
    xs.iter().map(|x| x.to_string()).collect()
}

fn tree(meta: u64, decls: Vec<Decl>) -> SourceTree {
    SourceTree { meta, decls }
}

fn file_mod(name: &str, meta: u64) -> Decl {
    Decl::Module { name: s(name), path_attr: None, body: None, meta }
}

fn other(meta: u64) -> Decl {
    Decl::Other { meta }
}

fn seg(ident: &str, sub: UseTreeNode) -> UseTreeNode {
    UseTreeNode::Path { ident: s(ident), sub: Box::new(sub) }
}

fn leaf(ident: &str) -> UseTreeNode {
    UseTreeNode::Name { ident: s(ident) }
}

#[test]
fn asks_for_entry_file_first() {
    let entry = path(&["src", "main.rs"]);
    let fs = FsSnapshot::new();
    match merge_project(&entry, &vec![], &fs, 100) {
        MergeOutcome::NeedFile { path: p, qual } => {
            assert_eq!(p, entry);
            assert_eq!(qual, "");
        }
        _ => panic!("expected a file question"),
    }
}

#[test]
fn scenario_flat_file_module() {
    let entry = path(&["src", "main.rs"]);
    let root = tree(0, vec![file_mod("foo", 1)]);
    let foo_body = tree(2, vec![other(7)]);
    let mut fs = FsSnapshot::new();
    fs.record(entry.clone(), s(""), FileState::Parsed(root));
    fs.record(path(&["src", "foo.rs"]), s(""), FileState::Parsed(foo_body));
    match merge_project(&entry, &vec![], &fs, 100) {
        MergeOutcome::Done { tree: out, externs } => {
            assert_eq!(externs.len(), 0);
            assert_eq!(out.decls.len(), 1);
            match &out.decls[0] {
                Decl::Module { name, body, .. } => {
                    assert_eq!(name, "foo");
                    let b = body.as_ref().expect("module body should be inlined");
                    assert_eq!(b.decls, vec![other(7)]);
                }
                _ => panic!("expected a module"),
            }
        }
        _ => panic!("expected a finished merge"),
    }
}

#[test]
fn scenario_self_relative_import() {
    let entry = path(&["src", "main.rs"]);
    let import = Decl::Import { tree: seg("crate", seg("util", leaf("helper"))), meta: 4 };
    let root = tree(0, vec![import, file_mod("util", 1)]);
    let util_body = tree(2, vec![other(9)]);
    let mut fs = FsSnapshot::new();
    fs.record(entry.clone(), s(""), FileState::Parsed(root));
    fs.record(path(&["src", "util.rs"]), s(""), FileState::Parsed(util_body));
    match merge_project(&entry, &vec![], &fs, 100) {
        MergeOutcome::Done { tree: out, .. } => {
            assert_eq!(out.decls.len(), 2);
            match &out.decls[0] {
                Decl::Import { tree: t, .. } => {
                    assert_eq!(*t, seg("util", leaf("helper")));
                }
                _ => panic!("expected the import first"),
            }
        }
        _ => panic!("expected a finished merge"),
    }
}

#[test]
fn scenario_dependency_crate_namespace() {
    let entry = path(&["src", "main.rs"]);
    let root = tree(0, vec![other(1)]);
    let dep_import = Decl::Import { tree: seg("crate", leaf("x")), meta: 5 };
    let dep = tree(3, vec![dep_import, other(9)]);
    let crates = vec![CrateDescriptor {
        name: s("my-lib"),
        root_dir: path(&["libs", "my-lib"]),
        entry: path(&["src", "lib.rs"]),
    }];
    let mut fs = FsSnapshot::new();
    fs.record(entry.clone(), s(""), FileState::Parsed(root));
    fs.record(
        path(&["libs", "my-lib", "src", "lib.rs"]),
        s("my_lib"),
        FileState::Parsed(dep),
    );
    match merge_project(&entry, &crates, &fs, 100) {
        MergeOutcome::Done { tree: out, .. } => {
            assert_eq!(out.decls.len(), 2);
            assert_eq!(out.decls[0], other(1));
            match &out.decls[1] {
                Decl::Module { name, body, path_attr, .. } => {
                    assert_eq!(name, "my_lib");
                    assert!(path_attr.is_none());
                    let b = body.as_ref().expect("container should hold the crate");
                    assert_eq!(b.meta, 3);
                    assert_eq!(b.decls.len(), 2);
                    match &b.decls[0] {
                        Decl::Import { tree: t, .. } => {
                            assert_eq!(*t, seg("crate", seg("my_lib", leaf("x"))));
                        }
                        _ => panic!("expected the rewritten import"),
                    }
                    assert_eq!(b.decls[1], other(9));
                }
                _ => panic!("expected the namespace container"),
            }
        }
        _ => panic!("expected a finished merge"),
    }
}

#[test]
fn dependency_entry_asked_under_its_qualifier() {
    let entry = path(&["src", "main.rs"]);
    let root = tree(0, vec![]);
    let crates = vec![CrateDescriptor {
        name: s("my-lib"),
        root_dir: path(&["libs", "my-lib"]),
        entry: path(&["src", "lib.rs"]),
    }];
    let mut fs = FsSnapshot::new();
    fs.record(entry.clone(), s(""), FileState::Parsed(root));
    match merge_project(&entry, &crates, &fs, 100) {
        MergeOutcome::NeedFile { path: p, qual } => {
            assert_eq!(p, path(&["libs", "my-lib", "src", "lib.rs"]));
            assert_eq!(qual, "my_lib");
        }
        _ => panic!("expected the dependency entry file to be asked for"),
    }
}

fn fully_inline(t: &SourceTree) -> bool {
    t.decls.iter().all(|d| match d {
        Decl::Module { body, .. } => body.as_ref().map_or(false, fully_inline),
        Decl::ExternCrateRef { .. } => false,
        _ => true,
    })
}

#[test]
fn merged_tree_has_no_file_backed_modules() {
    let entry = path(&["src", "main.rs"]);
    let root = tree(
        0,
        vec![file_mod("foo", 1), Decl::ExternCrateRef { name: s("dep"), meta: 2 }],
    );
    let foo_body = tree(3, vec![file_mod("bar", 4)]);
    let bar_body = tree(5, vec![other(6)]);
    let dep = tree(7, vec![Decl::ExternCrateRef { name: s("inner"), meta: 8 }]);
    let crates = vec![CrateDescriptor {
        name: s("dep"),
        root_dir: path(&["d"]),
        entry: path(&["src", "lib.rs"]),
    }];
    let mut fs = FsSnapshot::new();
    fs.record(entry.clone(), s(""), FileState::Parsed(root));
    fs.record(path(&["src", "foo.rs"]), s(""), FileState::Parsed(foo_body));
    fs.record(path(&["src", "bar.rs"]), s(""), FileState::Parsed(bar_body));
    fs.record(path(&["d", "src", "lib.rs"]), s("dep"), FileState::Parsed(dep));
    match merge_project(&entry, &crates, &fs, 100) {
        MergeOutcome::Done { tree: out, externs } => {
            assert!(fully_inline(&out));
            assert_eq!(externs, vec![s("dep"), s("inner")]);
        }
        _ => panic!("expected a finished merge"),
    }
}

#[test]
fn scenario_explicit_path_attribute() {
    let entry = path(&["src", "main.rs"]);
    let m = Decl::Module {
        name: s("m"),
        path_attr: Some(path(&["alt", "special.rs"])),
        body: None,
        meta: 1,
    };
    let root = tree(0, vec![m]);
    let special = tree(2, vec![other(42)]);
    let decoy = tree(3, vec![other(13)]);
    let mut fs = FsSnapshot::new();
    fs.record(entry.clone(), s(""), FileState::Parsed(root));
    fs.record(path(&["src", "m.rs"]), s(""), FileState::Parsed(decoy));
    fs.record(path(&["src", "alt", "special.rs"]), s(""), FileState::Parsed(special));
    match merge_project(&entry, &vec![], &fs, 100) {
        MergeOutcome::Done { tree: out, .. } => match &out.decls[0] {
            Decl::Module { body, .. } => {
                let b = body.as_ref().expect("module body should be inlined");
                assert_eq!(b.decls, vec![other(42)]);
            }
            _ => panic!("expected a module"),
        },
        _ => panic!("expected a finished merge"),
    }
}

#[test]
fn absent_explicit_path_has_no_fallback() {
    let entry = path(&["src", "main.rs"]);
    let m = Decl::Module {
        name: s("m"),
        path_attr: Some(path(&["alt", "special.rs"])),
        body: None,
        meta: 1,
    };
    let root = tree(0, vec![m]);
    let decoy = tree(2, vec![other(13)]);
    let mut fs = FsSnapshot::new();
    fs.record(entry.clone(), s(""), FileState::Parsed(root));
    fs.record(path(&["src", "m.rs"]), s(""), FileState::Parsed(decoy));
    fs.record(path(&["src", "alt", "special.rs"]), s(""), FileState::Absent);
    match merge_project(&entry, &vec![], &fs, 100) {
        MergeOutcome::Missing { module, dir } => {
            assert_eq!(module, "m");
            assert_eq!(dir, path(&["src"]));
        }
        _ => panic!("expected a resolution failure"),
    }
}

#[test]
fn scenario_missing_module() {
    let entry = path(&["src", "main.rs"]);
    let root = tree(0, vec![file_mod("foo", 1)]);
    let mut fs = FsSnapshot::new();
    fs.record(entry.clone(), s(""), FileState::Parsed(root));
    fs.record(path(&["src", "foo.rs"]), s(""), FileState::Absent);
    fs.record(path(&["src", "foo", "mod.rs"]), s(""), FileState::Absent);
    match merge_project(&entry, &vec![], &fs, 100) {
        MergeOutcome::Missing { module, dir } => {
            assert_eq!(module, "foo");
            assert_eq!(dir, path(&["src"]));
        }
        _ => panic!("expected a resolution failure"),
    }
}

#[test]
fn extern_names_observable() {
    let entry = path(&["src", "main.rs"]);
    let root = tree(
        0,
        vec![
            Decl::ExternCrateRef { name: s("serde"), meta: 1 },
            other(2),
            Decl::ExternCrateRef { name: s("rand"), meta: 3 },
        ],
    );
    let mut fs = FsSnapshot::new();
    fs.record(entry.clone(), s(""), FileState::Parsed(root));
    match merge_project(&entry, &vec![], &fs, 100) {
        MergeOutcome::Done { tree: out, externs } => {
            assert_eq!(externs, vec![s("serde"), s("rand")]);
            assert_eq!(out.decls, vec![other(2)]);
        }
        _ => panic!("expected a finished merge"),
    }
}

#[test]
fn no_modules_identity() {
    let entry = path(&["src", "main.rs"]);
    let root = tree(6, vec![other(1), Decl::Import { tree: seg("a", leaf("b")), meta: 2 }]);
    let expected = tree(6, vec![other(1), Decl::Import { tree: seg("a", leaf("b")), meta: 2 }]);
    let mut fs = FsSnapshot::new();
    fs.record(entry.clone(), s(""), FileState::Parsed(root));
    match merge_project(&entry, &vec![], &fs, 100) {
        MergeOutcome::Done { tree: out, externs } => {
            assert_eq!(out, expected);
            assert_eq!(externs.len(), 0);
        }
        _ => panic!("expected a finished merge"),
    }
}

#[test]
fn resolution_order_of_candidates() {
    let entry = path(&["src", "main.rs"]);
    let root = tree(0, vec![file_mod("m", 1)]);
    let mut fs = FsSnapshot::new();
    fs.record(entry.clone(), s(""), FileState::Parsed(root));
    match merge_project(&entry, &vec![], &fs, 100) {
        MergeOutcome::NeedFile { path: p, .. } => assert_eq!(p, path(&["src", "m.rs"])),
        _ => panic!("expected the flat candidate to be asked first"),
    }
    fs.record(path(&["src", "m.rs"]), s(""), FileState::Absent);
    match merge_project(&entry, &vec![], &fs, 100) {
        MergeOutcome::NeedFile { path: p, .. } => {
            assert_eq!(p, path(&["src", "m", "mod.rs"]))
        }
        _ => panic!("expected the directory-index candidate next"),
    }
    fs.record(path(&["src", "m", "mod.rs"]), s(""), FileState::Absent);
    match merge_project(&entry, &vec![], &fs, 100) {
        MergeOutcome::Missing { module, .. } => assert_eq!(module, "m"),
        _ => panic!("expected a resolution failure"),
    }
}

#[test]
fn flat_file_takes_priority() {
    let entry = path(&["src", "main.rs"]);
    let root = tree(0, vec![file_mod("m", 1)]);
    let flat = tree(2, vec![other(11)]);
    let index = tree(3, vec![other(22)]);
    let mut fs = FsSnapshot::new();
    fs.record(entry.clone(), s(""), FileState::Parsed(root));
    fs.record(path(&["src", "m.rs"]), s(""), FileState::Parsed(flat));
    fs.record(path(&["src", "m", "mod.rs"]), s(""), FileState::Parsed(index));
    match merge_project(&entry, &vec![], &fs, 100) {
        MergeOutcome::Done { tree: out, .. } => match &out.decls[0] {
            Decl::Module { body, .. } => {
                assert_eq!(body.as_ref().unwrap().decls, vec![other(11)]);
            }
            _ => panic!("expected a module"),
        },
        _ => panic!("expected a finished merge"),
    }
}

#[test]
fn directory_index_keeps_nesting() {
    let entry = path(&["src", "main.rs"]);
    let root = tree(0, vec![file_mod("m", 1)]);
    let index = tree(2, vec![file_mod("inner", 3)]);
    let inner = tree(4, vec![other(5)]);
    let mut fs = FsSnapshot::new();
    fs.record(entry.clone(), s(""), FileState::Parsed(root));
    fs.record(path(&["src", "m.rs"]), s(""), FileState::Absent);
    fs.record(path(&["src", "m", "mod.rs"]), s(""), FileState::Parsed(index));
    fs.record(path(&["src", "m", "inner.rs"]), s(""), FileState::Parsed(inner));
    match merge_project(&entry, &vec![], &fs, 100) {
        MergeOutcome::Done { tree: out, .. } => match &out.decls[0] {
            Decl::Module { body, .. } => match &body.as_ref().unwrap().decls[0] {
                Decl::Module { name, body: inner_body, .. } => {
                    assert_eq!(name, "inner");
                    assert_eq!(inner_body.as_ref().unwrap().decls, vec![other(5)]);
                }
                _ => panic!("expected the inner module"),
            },
            _ => panic!("expected a module"),
        },
        _ => panic!("expected a finished merge"),
    }
}

#[test]
fn inline_body_pushes_directory() {
    let entry = path(&["src", "main.rs"]);
    let inline = Decl::Module {
        name: s("outer"),
        path_attr: None,
        body: Some(tree(1, vec![file_mod("f", 2)])),
        meta: 3,
    };
    let root = tree(0, vec![inline]);
    let mut fs = FsSnapshot::new();
    fs.record(entry.clone(), s(""), FileState::Parsed(root));
    match merge_project(&entry, &vec![], &fs, 100) {
        MergeOutcome::NeedFile { path: p, .. } => {
            assert_eq!(p, path(&["src", "outer", "f.rs"]));
        }
        _ => panic!("expected a file question under the inline module's directory"),
    }
}

#[test]
fn duplicate_crate_merged_once() {
    let entry = path(&["src", "main.rs"]);
    let root = tree(0, vec![]);
    let dep = tree(1, vec![other(9)]);
    let desc = |root_dir: Vec<String>| CrateDescriptor {
        name: s("dep"),
        root_dir,
        entry: path(&["src", "lib.rs"]),
    };
    let crates = vec![desc(path(&["a"])), desc(path(&["a"]))];
    let mut fs = FsSnapshot::new();
    fs.record(entry.clone(), s(""), FileState::Parsed(root));
    fs.record(path(&["a", "src", "lib.rs"]), s("dep"), FileState::Parsed(dep));
    match merge_project(&entry, &crates, &fs, 100) {
        MergeOutcome::Done { tree: out, .. } => {
            assert_eq!(out.decls.len(), 1);
        }
        _ => panic!("expected a finished merge"),
    }
}

#[test]
fn invalid_crate_name_refused() {
    let entry = path(&["src", "main.rs"]);
    let root = tree(0, vec![]);
    let crates = vec![CrateDescriptor {
        name: s("9bad"),
        root_dir: path(&["a"]),
        entry: path(&["src", "lib.rs"]),
    }];
    let mut fs = FsSnapshot::new();
    fs.record(entry.clone(), s(""), FileState::Parsed(root));
    match merge_project(&entry, &crates, &fs, 100) {
        MergeOutcome::InvalidName { name } => assert_eq!(name, "9bad"),
        _ => panic!("expected the crate name to be refused"),
    }
}

#[test]
fn depth_bound_stops_cycles() {
    let entry = path(&["src", "main.rs"]);
    let root = tree(0, vec![file_mod("a", 1)]);
    let cyclic = tree(2, vec![file_mod("a", 3)]);
    let mut fs = FsSnapshot::new();
    fs.record(entry.clone(), s(""), FileState::Parsed(root));
    fs.record(path(&["src", "a.rs"]), s(""), FileState::Parsed(cyclic));
    match merge_project(&entry, &vec![], &fs, 3) {
        MergeOutcome::Depth => {}
        _ => panic!("expected the depth bound to stop the cycle"),
    }
}

#[test]
fn expansion_reports_externs_in_nested_modules() {
    let inline = Decl::Module {
        name: s("inner"),
        path_attr: None,
        body: Some(tree(1, vec![Decl::ExternCrateRef { name: s("alpha"), meta: 2 }])),
        meta: 3,
    };
    let t = tree(0, vec![inline, Decl::ExternCrateRef { name: s("beta"), meta: 4 }]);
    let fs = FsSnapshot::new();
    let dir = path(&["src"]);
    let qual = s("");
    match expand_tree(&t, &dir, &qual, &fs, 10) {
        ExpandOutcome::Done { externs, tree: out } => {
            assert_eq!(externs, vec![s("alpha"), s("beta")]);
            assert_eq!(out.decls.len(), 1);
        }
        _ => panic!("expected a finished expansion"),
    }
}
