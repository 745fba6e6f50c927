use cubeb_coreaudio_samples::tree::TreeBuilder;

#[test]
fn nesting_follows_call_order() {
    let mut b = TreeBuilder::new();
    b.open_branch(String::from("root"));
    b.leaf(String::from("x"));
    b.open_branch(String::from("A"));
    b.leaf(String::from("g"));
    b.close_branch();
    b.open_branch(String::from("B"));
    b.close_branch();
    b.close_branch();
    let out = b.flush();
    assert_eq!(out, "root\n  x\n  A\n    g\n  B\n");
}

#[test]
fn flush_resets_the_builder() {
    let mut b = TreeBuilder::new();
    b.open_branch(String::from("only"));
    b.close_branch();
    let first = b.flush();
    assert_eq!(first, "only\n");
    let second = b.flush();
    assert_eq!(second, "");
}

#[test]
fn top_level_leaves_are_unindented() {
    let mut b = TreeBuilder::new();
    b.leaf(String::from("alpha"));
    b.leaf(String::from("beta"));
    let out = b.flush();
    assert_eq!(out, "alpha\nbeta\n");
}
