use rustpack::error::BundleError;
use rustpack::merge::{check_ident, normalize_crate_name, MergeOutcome};
use rustpack::tree::SourceTree;

fn s(x: &str) -> String {
    x.to_string()
}

#[test]
fn dashes_become_underscores() {
    assert_eq!(normalize_crate_name(&s("my-lib")), "my_lib");
    assert_eq!(normalize_crate_name(&s("a-b-c2")), "a_b_c2");
    assert_eq!(normalize_crate_name(&s("plain")), "plain");
    assert_eq!(normalize_crate_name(&s("")), "");
}

#[test]
fn identifier_shapes() {
    assert!(check_ident(&s("ok_name")));
    assert!(check_ident(&s("_x9")));
    assert!(check_ident(&s("A1")));
    assert!(!check_ident(&s("")));
    assert!(!check_ident(&s("9x")));
    assert!(!check_ident(&s("has-dash")));
    assert!(!check_ident(&s("sp ace")));
}

#[test]
fn bundle_error_keeps_message() {
    let e = BundleError::new("module file does not exist");
    assert_eq!(e.message(), "module file does not exist");
}

#[test]
fn failure_messages_name_the_cause() {
    let missing = MergeOutcome::Missing { module: s("foo"), dir: vec![s("src")] };
    assert_eq!(missing.failure().unwrap().message(), "module file not found: foo");

    let invalid = MergeOutcome::InvalidName { name: s("9bad") };
    assert_eq!(invalid.failure().unwrap().message(), "crate name is not a valid identifier: 9bad");

    let deep = MergeOutcome::Depth;
    assert_eq!(deep.failure().unwrap().message(), "module nesting is too deep");

    let done = MergeOutcome::Done {
        tree: SourceTree { meta: 0, decls: vec![] },
        externs: vec![],
    };
    assert!(done.failure().is_none());
}
