use rustpack::rewrite::{is_marker, rewrite_path_segments, rewrite_use_tree};
use rustpack::tree::UseTreeNode;

fn s(x: &str) -> String {
    x.to_string()
}

fn segs(xs: &[&str]) -> Vec<String> {
    xs.iter().map(|x| x.to_string()).collect()
}

fn seg(ident: &str, sub: UseTreeNode) -> UseTreeNode {
    UseTreeNode::Path { ident: s(ident), sub: Box::new(sub) }
}

fn leaf(ident: &str) -> UseTreeNode {
    UseTreeNode::Name { ident: s(ident) }
}

#[test]
fn marker_is_recognized() {
    assert!(is_marker(&s("crate")));
    assert!(!is_marker(&s("crates")));
    assert!(!is_marker(&s("crat")));
    assert!(!is_marker(&s("")));
}

#[test]
fn root_path_strips_marker() {
    let out = rewrite_path_segments(segs(&["crate", "util", "helper"]), &s(""));
    assert_eq!(out, segs(&["util", "helper"]));
}

#[test]
fn root_path_rewrite_is_idempotent() {
    let once = rewrite_path_segments(segs(&["crate", "util", "helper"]), &s(""));
    let twice = rewrite_path_segments(once.clone(), &s(""));
    assert_eq!(once, twice);
}

#[test]
fn dependency_path_inserts_qualifier() {
    let out = rewrite_path_segments(segs(&["crate", "x"]), &s("my_lib"));
    assert_eq!(out, segs(&["crate", "my_lib", "x"]));
}

#[test]
fn unrelated_path_is_untouched() {
    let out = rewrite_path_segments(segs(&["std", "crate", "x"]), &s("my_lib"));
    assert_eq!(out, segs(&["std", "crate", "x"]));
}

#[test]
fn lone_marker_path_is_kept() {
    let out = rewrite_path_segments(segs(&["crate"]), &s(""));
    assert_eq!(out, segs(&["crate"]));
}

#[test]
fn root_import_strips_marker() {
    let out = rewrite_use_tree(&seg("crate", seg("util", leaf("helper"))), &s(""));
    assert_eq!(out, seg("util", leaf("helper")));
}

#[test]
fn dependency_import_inserts_qualifier() {
    let out = rewrite_use_tree(&seg("crate", leaf("x")), &s("my_lib"));
    assert_eq!(out, seg("crate", seg("my_lib", leaf("x"))));
}

#[test]
fn root_import_rewrite_is_idempotent() {
    let once = rewrite_use_tree(&seg("crate", seg("util", leaf("helper"))), &s(""));
    let twice = rewrite_use_tree(&once, &s(""));
    assert_eq!(once, twice);
}

#[test]
fn grouped_import_rewrites_each_branch() {
    let group = UseTreeNode::Group {
        items: vec![seg("crate", leaf("a")), seg("std", leaf("b"))],
    };
    let out = rewrite_use_tree(&group, &s("dep"));
    let expected = UseTreeNode::Group {
        items: vec![seg("crate", seg("dep", leaf("a"))), seg("std", leaf("b"))],
    };
    assert_eq!(out, expected);
}

#[test]
fn rename_and_glob_pass_through() {
    let rn = UseTreeNode::Rename { ident: s("a"), alias: s("b") };
    assert_eq!(rewrite_use_tree(&rn, &s("dep")), rn);
    assert_eq!(rewrite_use_tree(&UseTreeNode::Glob, &s("dep")), UseTreeNode::Glob);
}
