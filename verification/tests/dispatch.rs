use rust_tools::action_option::ActionOption;
use rust_tools::actions::{Actions, CommandLine};
use rust_tools::args::{parse_globals, Args, GlobalArgs};
use rust_tools::cfg_option::{load_from_template, CfgOption};
use rust_tools::dispatch::{dispatch, extend_transform, parse_action, Plan};
use rust_tools::error::Error;
use rust_tools::params::Params;
use rust_tools::transforming_params::TransformingParams;

fn strings(items: &[&str]) -> Vec<String> {
    items.iter().map(|s| s.to_string()).collect()
}

fn missing() -> Error {
    Error::WrongNumberOfArgs { expected: 1, received: 0 }
}

fn run(argv: &[&str]) -> Result<Plan, Error> {
    let mut args = Args::new(strings(argv));
    let globals = parse_globals(&mut args)?;
    dispatch(&mut args, &globals, Params::new(), TransformingParams::new())
}

fn globals(argv: &[&str]) -> Result<(GlobalArgs, usize), Error> {
    let mut args = Args::new(strings(argv));
    let g = parse_globals(&mut args)?;
    Ok((g, args.remaining()))
}

#[test]
fn toolchain_flag_then_build_generic() {
    let plan = run(&["prog", "--toolchain", "nightly-preset", "build-generic", "mytarget"]).unwrap();
    assert_eq!(plan.action, ActionOption::BuildGeneric);
    assert_eq!(plan.target, "mytarget");
    assert_eq!(plan.list, "");
    assert_eq!(plan.params.toolchain, "nightly-preset");
    assert!(plan.params.targets.is_empty());
    assert!(plan.params.features.is_empty());
    assert!(plan.params.rust_flags.is_empty());
    assert!(plan.params.clippy_flags.is_empty());
    assert_eq!(plan.command.program, "cargo");
    assert_eq!(plan.command.args, strings(&["+nightly-preset", "build", "--target", "mytarget"]));
}

#[test]
fn omitted_feature_list_leaves_no_selector() {
    let plan = run(&["prog", "build-with-features", "mytarget"]).unwrap();
    assert_eq!(plan.action, ActionOption::BuildWithFeatures);
    assert_eq!(plan.target, "mytarget");
    assert_eq!(plan.list, "");
    assert_eq!(plan.command.args, strings(&["build", "--target", "mytarget"]));
    assert!(!plan.command.args.iter().any(|a| a == "--features"));
    assert!(!plan.command.args.iter().any(|a| a.is_empty()));
}

#[test]
fn given_feature_list_is_selected() {
    let plan = run(&["prog", "test-with-features", "mytarget", "a,b"]).unwrap();
    assert_eq!(plan.action, ActionOption::TestWithFeatures);
    assert_eq!(plan.list, "a,b");
    assert_eq!(plan.command.args, strings(&["test", "--target", "mytarget", "--features", "a,b"]));
}

#[test]
fn lint_list_is_added_and_removed() {
    let plan = run(&["prog", "lint", "a,b"]).unwrap();
    assert_eq!(plan.action, ActionOption::Clippy);
    assert_eq!(plan.transform.add_clippy_flags, strings(&["a", "b"]));
    assert_eq!(plan.transform.rm_clippy_flags, strings(&["a", "b"]));
    assert!(plan.transform.add_rust_flags.is_empty());
    assert!(plan.transform.rm_rust_flags.is_empty());
    assert_eq!(plan.params.clippy_flags, strings(&["a", "b"]));
    assert_eq!(plan.command.args, strings(&["clippy", "a", "b"]));
}

#[test]
fn raw_flags_list_is_added_and_removed() {
    let plan = run(&["prog", "raw-flags", "-Dwarnings,-Copt-level=3"]).unwrap();
    assert_eq!(plan.action, ActionOption::RustFlags);
    assert_eq!(plan.transform.add_rust_flags, strings(&["-Dwarnings", "-Copt-level=3"]));
    assert_eq!(plan.transform.rm_rust_flags, strings(&["-Dwarnings", "-Copt-level=3"]));
    assert!(plan.transform.add_clippy_flags.is_empty());
    assert_eq!(plan.command.args, strings(&["rustc", "-Dwarnings", "-Copt-level=3"]));
}

#[test]
fn omitted_flag_list_is_one_empty_token_and_is_not_handed_on() {
    let plan = run(&["prog", "lint"]).unwrap();
    assert_eq!(plan.transform.add_clippy_flags, strings(&[""]));
    assert_eq!(plan.transform.rm_clippy_flags, strings(&[""]));
    assert_eq!(plan.params.clippy_flags, strings(&[""]));
    assert_eq!(plan.command.args, strings(&["clippy"]));
}

#[test]
fn no_action_token_is_wrong_number_of_args() {
    assert_eq!(run(&["prog"]), Err(missing()));
    assert_eq!(run(&[]), Err(missing()));
    assert_eq!(globals(&["prog"]).unwrap_err(), Error::WrongNumberOfArgs { expected: 1, received: 0 });
}

#[test]
fn unknown_action_is_rejected() {
    assert_eq!(run(&["prog", "deploy"]), Err(Error::UnknownAction));
    assert_eq!(run(&["prog", "clippy"]), Err(Error::UnknownAction));
    assert_eq!(run(&["prog", ""]), Err(Error::UnknownAction));
    assert_eq!(run(&["prog", "Build-Generic", "x"]), Err(Error::UnknownAction));
}

#[test]
fn missing_target_is_wrong_number_of_args() {
    for action in [
        "build-generic",
        "build-with-features",
        "check-generic",
        "check-with-features",
        "test-generic",
        "test-with-features",
    ] {
        assert_eq!(run(&["prog", action]), Err(missing()));
    }
}

#[test]
fn unknown_action_comes_before_missing_target() {
    assert_eq!(run(&["prog", "nothing"]), Err(Error::UnknownAction));
}

#[test]
fn all_three_global_flags_in_order() {
    let (g, left) = globals(&[
        "prog", "--file", "cfg.txt", "--template", "you-rust", "--toolchain", "nightly", "format", "x",
    ])
    .unwrap();
    assert_eq!(g.file, "cfg.txt");
    assert_eq!(g.template, "you-rust");
    assert_eq!(g.toolchain, "nightly");
    assert_eq!(g.action, "format");
    assert_eq!(left, 1);
}

#[test]
fn no_global_flag() {
    let (g, left) = globals(&["prog", "set-up"]).unwrap();
    assert_eq!(g.file, "");
    assert_eq!(g.template, "");
    assert_eq!(g.toolchain, "");
    assert_eq!(g.action, "set-up");
    assert_eq!(left, 0);
}

#[test]
fn flag_without_value_is_the_action_token() {
    let (g, left) = globals(&["prog", "--file"]).unwrap();
    assert_eq!(g.file, "");
    assert_eq!(g.action, "--file");
    assert_eq!(left, 0);
    assert_eq!(run(&["prog", "--file"]), Err(Error::UnknownAction));
    assert_eq!(run(&["prog", "--toolchain"]), Err(Error::UnknownAction));
}

#[test]
fn flag_with_value_and_nothing_behind_it() {
    assert_eq!(globals(&["prog", "--file", "cfg.txt"]).unwrap_err(), missing());
    assert_eq!(globals(&["prog", "--template", "you-rust"]).unwrap_err(), missing());
    assert_eq!(run(&["prog", "--toolchain", "nightly"]), Err(missing()));
}

#[test]
fn flag_out_of_order_is_the_action_token() {
    let (g, left) = globals(&["prog", "--toolchain", "nightly", "--file", "cfg.txt", "format"]).unwrap();
    assert_eq!(g.toolchain, "nightly");
    assert_eq!(g.file, "");
    assert_eq!(g.action, "--file");
    assert_eq!(left, 2);
    assert_eq!(
        run(&["prog", "--toolchain", "nightly", "--file", "cfg.txt", "format"]),
        Err(Error::UnknownAction)
    );
}

#[test]
fn flag_given_twice_is_the_action_token() {
    let (g, _) = globals(&["prog", "--file", "a", "--file", "b", "format"]).unwrap();
    assert_eq!(g.file, "a");
    assert_eq!(g.action, "--file");
}

#[test]
fn flag_behind_the_action_is_an_argument() {
    let plan = run(&["prog", "build-with-features", "--toolchain", "nightly"]).unwrap();
    assert_eq!(plan.target, "--toolchain");
    assert_eq!(plan.list, "nightly");
    assert_eq!(plan.params.toolchain, "");
    assert_eq!(
        plan.command.args,
        strings(&["build", "--target", "--toolchain", "--features", "nightly"])
    );
}

#[test]
fn empty_flag_value_counts_as_not_given() {
    let plan = run(&["prog", "--toolchain", "", "format"]).unwrap();
    assert_eq!(plan.params.toolchain, "");
    assert_eq!(plan.command.args, strings(&["fmt"]));
}

#[test]
fn template_replaces_the_loaded_configuration() {
    let mut loaded = Params::new();
    loaded.rust_flags = strings(&["-Cfrom-file"]);
    loaded.targets = strings(&["t"]);
    let mut args = Args::new(strings(&["prog", "--template", "you-rust", "lint", "-Dwarnings"]));
    let g = parse_globals(&mut args).unwrap();
    let plan = dispatch(&mut args, &g, loaded, TransformingParams::new()).unwrap();
    let preset = CfgOption::YouRust.into_params();
    assert_eq!(plan.params.rust_flags, preset.rust_flags);
    assert!(plan.params.targets.is_empty());
    assert_eq!(
        plan.params.clippy_flags,
        strings(&[
            "-Dclippy::restriction",
            "-Aclippy::implicit_return",
            "-Aclippy::missing_docs_in_private_items",
            "-Dwarnings",
        ])
    );
    assert_eq!(
        plan.command.args,
        strings(&[
            "clippy",
            "-Dclippy::restriction",
            "-Aclippy::implicit_return",
            "-Aclippy::missing_docs_in_private_items",
            "-Dwarnings",
        ])
    );
}

#[test]
fn unknown_template_is_rejected_before_the_action() {
    assert_eq!(run(&["prog", "--template", "nope", "format"]), Err(Error::UnknownTemplate));
    assert_eq!(run(&["prog", "--template", "nope", "no-action"]), Err(Error::UnknownTemplate));
    assert_eq!(load_from_template("nope"), Err(Error::UnknownTemplate));
    assert_eq!(load_from_template(""), Err(Error::UnknownTemplate));
    assert_eq!(CfgOption::parse("You-Rust"), Err(Error::UnknownTemplate));
}

#[test]
fn you_rust_template() {
    assert_eq!(CfgOption::parse("you-rust"), Ok(CfgOption::YouRust));
    let p = load_from_template("you-rust").unwrap();
    assert_eq!(p.toolchain, "");
    assert!(p.targets.is_empty());
    assert!(p.features.is_empty());
    assert_eq!(
        p.clippy_flags,
        strings(&[
            "-Dclippy::restriction",
            "-Dwarnings",
            "-Aclippy::implicit_return",
            "-Aclippy::missing_docs_in_private_items",
        ])
    );
    assert_eq!(
        p.rust_flags,
        strings(&[
            "-Dbad_style",
            "-Dfuture_incompatible",
            "-Dmissing_debug_implementations",
            "-Dmissing_docs",
            "-Dnonstandard_style",
            "-Drust_2018_compatibility",
            "-Drust_2018_idioms",
            "-Dtrivial_casts",
            "-Dunused_lifetimes",
            "-Dunused_qualifications",
            "-Dwarnings",
        ])
    );
}

#[test]
fn toolchain_flag_overrides_the_loaded_change() {
    let mut loaded_tp = TransformingParams::new();
    loaded_tp.toolchain = "from-file".to_string();
    loaded_tp.add_rust_flags = strings(&["-Cx"]);
    let mut base = Params::new();
    base.toolchain = "base".to_string();

    let mut args = Args::new(strings(&["prog", "--toolchain", "nightly", "check-generic", "t"]));
    let g = parse_globals(&mut args).unwrap();
    let plan = dispatch(&mut args, &g, base.clone(), loaded_tp.clone()).unwrap();
    assert_eq!(plan.transform.toolchain, "nightly");
    assert_eq!(plan.params.toolchain, "nightly");
    assert_eq!(plan.command.args, strings(&["+nightly", "check", "--target", "t", "-Cx"]));

    let mut args = Args::new(strings(&["prog", "check-generic", "t"]));
    let g = parse_globals(&mut args).unwrap();
    let plan = dispatch(&mut args, &g, base, loaded_tp).unwrap();
    assert_eq!(plan.params.toolchain, "from-file");
    assert_eq!(plan.command.args, strings(&["+from-file", "check", "--target", "t", "-Cx"]));
}

#[test]
fn parse_action_leaves_unread_tokens() {
    let mut args = Args::new(strings(&["t", "f", "extra", "more"]));
    let plan =
        parse_action(&mut args, "check-with-features", Params::new(), TransformingParams::new()).unwrap();
    assert_eq!(plan.target, "t");
    assert_eq!(plan.list, "f");
    assert_eq!(args.remaining(), 2);
    assert_eq!(args.opt(), "extra");

    let mut args = Args::new(strings(&["t", "f"]));
    let plan = parse_action(&mut args, "format", Params::new(), TransformingParams::new()).unwrap();
    assert_eq!(plan.target, "");
    assert_eq!(plan.list, "");
    assert_eq!(args.remaining(), 2);

    let mut args = Args::new(strings(&["t", "f"]));
    let plan = parse_action(&mut args, "test-generic", Params::new(), TransformingParams::new()).unwrap();
    assert_eq!(plan.target, "t");
    assert_eq!(plan.list, "");
    assert_eq!(args.remaining(), 1);
}

#[test]
fn req_and_opt_read_from_the_left() {
    let mut args = Args::new(strings(&["a", "b"]));
    assert_eq!(args.remaining(), 2);
    assert_eq!(args.req(), Ok("a".to_string()));
    assert_eq!(args.opt(), "b");
    assert_eq!(args.remaining(), 0);
    assert_eq!(args.opt(), "");
    assert_eq!(args.req(), Err(missing()));
    assert_eq!(args.remaining(), 0);
}

#[test]
fn extend_transform_touches_only_its_category() {
    let mut tp = TransformingParams::new();
    tp.add_clippy_flags = strings(&["x"]);
    tp.toolchain = "n".to_string();
    let before = tp.clone();
    extend_transform(ActionOption::BuildGeneric, "a,b", &mut tp);
    assert_eq!(tp, before);
    extend_transform(ActionOption::Rustfmt, "a,b", &mut tp);
    assert_eq!(tp, before);
    extend_transform(ActionOption::Clippy, "a,b", &mut tp);
    assert_eq!(tp.add_clippy_flags, strings(&["x", "a", "b"]));
    assert_eq!(tp.rm_clippy_flags, strings(&["a", "b"]));
    assert!(tp.add_rust_flags.is_empty());
    assert!(tp.rm_rust_flags.is_empty());
    assert_eq!(tp.toolchain, "n");
    extend_transform(ActionOption::RustFlags, "", &mut tp);
    assert_eq!(tp.add_rust_flags, strings(&[""]));
    assert_eq!(tp.rm_rust_flags, strings(&[""]));
}

fn full() -> Params {
    Params {
        toolchain: "nightly".to_string(),
        targets: strings(&["--lib", ""]),
        features: strings(&["--all-features"]),
        rust_flags: strings(&["-Dwarnings", "", "-Copt-level=3"]),
        clippy_flags: strings(&["-Dclippy::all"]),
    }
}

fn cargo(args: &[&str]) -> CommandLine {
    CommandLine { program: "cargo".to_string(), args: strings(args) }
}

#[test]
fn commands_of_the_generic_actions() {
    let actions = Actions::new(full());
    assert_eq!(
        actions.build_generic("t"),
        cargo(&["+nightly", "build", "--target", "t", "--lib", "-Dwarnings", "-Copt-level=3"])
    );
    assert_eq!(
        actions.check_generic("t"),
        cargo(&["+nightly", "check", "--target", "t", "--lib", "-Dwarnings", "-Copt-level=3"])
    );
    assert_eq!(
        actions.test_generic("t"),
        cargo(&["+nightly", "test", "--target", "t", "--lib", "-Dwarnings", "-Copt-level=3"])
    );
}

#[test]
fn commands_of_the_actions_with_features() {
    let actions = Actions::new(full());
    assert_eq!(
        actions.build_with_features("t", "a,b"),
        cargo(&[
            "+nightly", "build", "--target", "t", "--lib", "--features", "a,b", "--all-features",
            "-Dwarnings", "-Copt-level=3",
        ])
    );
    assert_eq!(
        actions.check_with_features("t", ""),
        cargo(&[
            "+nightly", "check", "--target", "t", "--lib", "--all-features", "-Dwarnings",
            "-Copt-level=3",
        ])
    );
    assert_eq!(
        actions.test_with_features("t", "x"),
        cargo(&[
            "+nightly", "test", "--target", "t", "--lib", "--features", "x", "--all-features",
            "-Dwarnings", "-Copt-level=3",
        ])
    );
}

#[test]
fn commands_of_the_actions_without_target() {
    let actions = Actions::new(full());
    assert_eq!(actions.clippy(), cargo(&["+nightly", "clippy", "--lib", "-Dclippy::all"]));
    assert_eq!(
        actions.rust_flags(),
        cargo(&["+nightly", "rustc", "--lib", "-Dwarnings", "-Copt-level=3"])
    );
    assert_eq!(actions.rustfmt(), cargo(&["+nightly", "fmt", "--lib"]));
    assert_eq!(actions.set_up(), cargo(&["+nightly", "fetch", "--lib"]));
}

#[test]
fn command_without_toolchain_has_no_selector() {
    let actions = Actions::new(Params::new());
    assert_eq!(actions.rustfmt(), cargo(&["fmt"]));
    assert_eq!(actions.build_generic("t"), cargo(&["build", "--target", "t"]));
    assert_eq!(actions.build_generic(""), cargo(&["build", "--target", ""]));
    assert_eq!(
        actions.command(ActionOption::Clippy, "ignored", "ignored"),
        cargo(&["clippy"])
    );
}
