use rust_tools::error::Error;
use rust_tools::params::Params;
use rust_tools::parse_cfg::{default_cfg, parse_cfg};
use rust_tools::transforming_params::TransformingParams;

fn strings(items: &[&str]) -> Vec<String> {
    items.iter().map(|s| s.to_string()).collect()
}

#[test]
fn empty_text_is_the_empty_configuration() {
    assert_eq!(parse_cfg(""), Ok((Params::new(), TransformingParams::new())));
    assert_eq!(parse_cfg("\n\n"), Ok((Params::new(), TransformingParams::new())));
}

#[test]
fn every_key_fills_its_field() {
    let text = "toolchain=nightly-2024-01-01\ntargets=--lib,--bins\nfeatures=--all-features\n\
                rust_flags=-Dwarnings,-Copt-level=3\nclippy_flags=-Dclippy::all\n";
    let (p, tp) = parse_cfg(text).unwrap();
    assert_eq!(p.toolchain, "nightly-2024-01-01");
    assert_eq!(p.targets, strings(&["--lib", "--bins"]));
    assert_eq!(p.features, strings(&["--all-features"]));
    assert_eq!(p.rust_flags, strings(&["-Dwarnings", "-Copt-level=3"]));
    assert_eq!(p.clippy_flags, strings(&["-Dclippy::all"]));
    assert_eq!(tp, TransformingParams::new());
}

#[test]
fn repeated_keys_append_and_toolchain_is_replaced() {
    let (p, _) = parse_cfg("rust_flags=a\ntoolchain=x\nrust_flags=b,c\ntoolchain=y").unwrap();
    assert_eq!(p.rust_flags, strings(&["a", "b", "c"]));
    assert_eq!(p.toolchain, "y");
}

#[test]
fn value_may_hold_equal_signs_and_may_be_empty() {
    let (p, _) = parse_cfg("rust_flags=-Copt-level=3,--cfg=a=b\ntargets=\ntoolchain=").unwrap();
    assert_eq!(p.rust_flags, strings(&["-Copt-level=3", "--cfg=a=b"]));
    assert_eq!(p.targets, strings(&[""]));
    assert_eq!(p.toolchain, "");
}

#[test]
fn malformed_lines_are_rejected() {
    for text in [
        "toolchain",
        "unknown=1",
        "=value",
        " toolchain=x",
        "toolchain =x",
        "Toolchain=x",
        "rust_flags=a\nnonsense\nclippy_flags=b",
        " ",
        "# comment",
    ] {
        assert_eq!(parse_cfg(text), Err(Error::ConfigParseError));
    }
}

#[test]
fn only_line_feeds_end_a_line() {
    let (p, _) = parse_cfg("rust_flags=a\r\nclippy_flags=b").unwrap();
    assert_eq!(p.rust_flags, strings(&["a\r"]));
    assert_eq!(p.clippy_flags, strings(&["b"]));
    assert_eq!(parse_cfg("rust_flags=a\n\r\n"), Err(Error::ConfigParseError));
}

#[test]
fn default_cfg_is_empty() {
    assert_eq!(default_cfg(), (Params::new(), TransformingParams::new()));
    assert_eq!(parse_cfg("").unwrap(), default_cfg());
}
