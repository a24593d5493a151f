use rust_tools::params::Params;
use rust_tools::transforming_params::TransformingParams;

fn strings(items: &[&str]) -> Vec<String> {
    items.iter().map(|s| s.to_string()).collect()
}

fn sample() -> Params {
    Params {
        toolchain: "stable".to_string(),
        targets: strings(&["x86_64-unknown-linux-gnu"]),
        features: strings(&["std"]),
        rust_flags: strings(&["-Dwarnings", "-Copt-level=3"]),
        clippy_flags: strings(&["-Dclippy::all", "-Aclippy::style"]),
    }
}

#[test]
fn default_params_are_empty() {
    let p = Params::default();
    assert_eq!(p.toolchain, "");
    assert!(p.targets.is_empty());
    assert!(p.features.is_empty());
    assert!(p.rust_flags.is_empty());
    assert!(p.clippy_flags.is_empty());
    assert_eq!(p, Params::new());
}

#[test]
fn default_transform_is_empty() {
    let t = TransformingParams::default();
    assert_eq!(t.toolchain, "");
    assert!(t.add_rust_flags.is_empty());
    assert!(t.rm_rust_flags.is_empty());
    assert!(t.add_clippy_flags.is_empty());
    assert!(t.rm_clippy_flags.is_empty());
    assert_eq!(t, TransformingParams::new());
}

#[test]
fn empty_transform_changes_nothing() {
    let mut p = sample();
    p.modify(&TransformingParams::new());
    assert_eq!(p, sample());
    let mut q = Params::new();
    q.modify(&TransformingParams::new());
    assert_eq!(q, Params::new());
}

#[test]
fn toolchain_is_replaced_only_when_named() {
    let mut p = sample();
    let mut t = TransformingParams::new();
    t.toolchain = "nightly".to_string();
    p.modify(&t);
    assert_eq!(p.toolchain, "nightly");
    let mut q = sample();
    q.modify(&TransformingParams::new());
    assert_eq!(q.toolchain, "stable");
}

#[test]
fn removal_then_addition_per_category() {
    let mut p = sample();
    let mut t = TransformingParams::new();
    t.rm_rust_flags = strings(&["-Dwarnings"]);
    t.add_rust_flags = strings(&["-Cdebuginfo=2", "-Copt-level=3"]);
    t.rm_clippy_flags = strings(&["-Aclippy::style", "-Anot-there"]);
    t.add_clippy_flags = strings(&["-Wclippy::pedantic"]);
    p.modify(&t);
    assert_eq!(p.rust_flags, strings(&["-Copt-level=3", "-Cdebuginfo=2"]));
    assert_eq!(p.clippy_flags, strings(&["-Dclippy::all", "-Wclippy::pedantic"]));
    assert_eq!(p.targets, sample().targets);
    assert_eq!(p.features, sample().features);
    assert_eq!(p.toolchain, "stable");
}

#[test]
fn added_tokens_stand_once() {
    let mut p = Params::new();
    p.rust_flags = strings(&["a", "b"]);
    let mut t = TransformingParams::new();
    t.add_rust_flags = strings(&["b", "c", "c", "a", "d", "c"]);
    p.modify(&t);
    assert_eq!(p.rust_flags, strings(&["a", "b", "c", "d"]));
    for token in ["a", "b", "c", "d"] {
        assert_eq!(p.rust_flags.iter().filter(|f| f.as_str() == token).count(), 1);
    }
}

#[test]
fn removed_tokens_are_gone() {
    let mut p = Params::new();
    p.clippy_flags = strings(&["a", "b", "a", "c", "a"]);
    let mut t = TransformingParams::new();
    t.rm_clippy_flags = strings(&["a", "z"]);
    p.modify(&t);
    assert_eq!(p.clippy_flags, strings(&["b", "c"]));
}

#[test]
fn token_removed_and_added_is_moved_to_the_end() {
    let mut p = Params::new();
    p.rust_flags = strings(&["a", "b", "c"]);
    let mut t = TransformingParams::new();
    t.rm_rust_flags = strings(&["a"]);
    t.add_rust_flags = strings(&["a"]);
    p.modify(&t);
    assert_eq!(p.rust_flags, strings(&["b", "c", "a"]));
}

#[test]
fn kept_duplicates_are_not_thinned() {
    let mut p = Params::new();
    p.rust_flags = strings(&["x", "x"]);
    let mut t = TransformingParams::new();
    t.add_rust_flags = strings(&["x"]);
    p.modify(&t);
    assert_eq!(p.rust_flags, strings(&["x", "x"]));
}

#[test]
fn merging_twice_equals_merging_once() {
    let mut t = TransformingParams::new();
    t.toolchain = "nightly".to_string();
    t.rm_rust_flags = strings(&["-Dwarnings"]);
    t.add_rust_flags = strings(&["-Cdebuginfo=2", "-Cdebuginfo=2"]);
    t.rm_clippy_flags = strings(&["q", "r"]);
    t.add_clippy_flags = strings(&["q", "r"]);
    let mut once = sample();
    once.modify(&t);
    let mut twice = sample();
    twice.modify(&t);
    twice.modify(&t);
    assert_eq!(once, twice);
    assert_eq!(once.clippy_flags, strings(&["-Dclippy::all", "-Aclippy::style", "q", "r"]));
}

#[test]
fn second_merge_moves_removed_tokens_behind_the_others() {
    let mut t = TransformingParams::new();
    t.add_rust_flags = strings(&["a", "b"]);
    t.rm_rust_flags = strings(&["a"]);
    let mut p = Params::new();
    p.modify(&t);
    assert_eq!(p.rust_flags, strings(&["a", "b"]));
    p.modify(&t);
    assert_eq!(p.rust_flags, strings(&["b", "a"]));
    p.modify(&t);
    assert_eq!(p.rust_flags, strings(&["b", "a"]));
}

#[test]
fn empty_token_is_a_token_like_any_other() {
    let mut p = Params::new();
    p.clippy_flags = strings(&["", "a"]);
    let mut t = TransformingParams::new();
    t.add_clippy_flags = strings(&[""]);
    t.rm_clippy_flags = strings(&[""]);
    p.modify(&t);
    assert_eq!(p.clippy_flags, strings(&["a", ""]));
}
