//! The command that each action stands for.

use vstd::prelude::*;
use vstd::string::StringExecFns;
use crate::action_option::{takes_features, takes_target, ActionOption};
use crate::params::{without, Params, ParamsView};
use crate::text::{push_token, token_views, Token};

verus! {

/// A command that has not been started: the program and its arguments.
#[derive(Debug, Clone, PartialEq, Eq)]
pub struct CommandLine {
    pub program: String,
    pub args: Vec<String>,
}

/// What a `CommandLine` holds.
pub struct CommandView {
    pub program: Token,
    pub args: Seq<Token>,
}

impl View for CommandLine {
    type V = CommandView;

    open spec fn view(&self) -> CommandView {
        CommandView { program: self.program@, args: token_views(self.args@) }
    }
}

/// The build tool.
pub open spec fn build_tool() -> Token {
    "cargo"@
}

/// The build tool's subcommand for `action`.
pub open spec fn subcommand(action: ActionOption) -> Token {
    match action {
        ActionOption::BuildGeneric | ActionOption::BuildWithFeatures => "build"@,
        ActionOption::CheckGeneric | ActionOption::CheckWithFeatures => "check"@,
        ActionOption::TestGeneric | ActionOption::TestWithFeatures => "test"@,
        ActionOption::Clippy => "clippy"@,
        ActionOption::RustFlags => "rustc"@,
        ActionOption::Rustfmt => "fmt"@,
        ActionOption::SetUp => "fetch"@,
    }
}

/// The tokens of `list` that are handed on: all but the empty ones, which an
/// omitted flag list leaves behind.
pub open spec fn forwarded(list: Seq<Token>) -> Seq<Token> {
    without(list, seq![Seq::<char>::empty()])
}

/// How the toolchain is selected: `+` and its name in front of the
/// subcommand, and nothing at all where no toolchain is named.
pub open spec fn toolchain_selector(toolchain: Token) -> Seq<Token> {
    if toolchain.len() > 0 {
        seq!["+"@ + toolchain]
    } else {
        Seq::empty()
    }
}

/// How the target is selected, for the actions that take one.
pub open spec fn target_selector(action: ActionOption, target: Token) -> Seq<Token> {
    if takes_target(action) {
        seq!["--target"@, target]
    } else {
        Seq::empty()
    }
}

/// How the features are selected, for the actions that read a selection:
/// nothing at all where the selection is empty.
pub open spec fn feature_selector(action: ActionOption, features: Token) -> Seq<Token> {
    if takes_features(action) && features.len() > 0 {
        seq!["--features"@, features]
    } else {
        Seq::empty()
    }
}

/// The configured feature tokens, which only the actions that read a feature
/// selection hand on.
pub open spec fn feature_flags(action: ActionOption, p: ParamsView) -> Seq<Token> {
    if takes_features(action) {
        p.features
    } else {
        Seq::empty()
    }
}

/// The flags that belong to `action`: the lint flags for the lints, none for
/// formatting and setting up, the compiler flags for every other action.
pub open spec fn category_flags(action: ActionOption, p: ParamsView) -> Seq<Token> {
    match action {
        ActionOption::Clippy => p.clippy_flags,
        ActionOption::Rustfmt | ActionOption::SetUp => Seq::empty(),
        _ => p.rust_flags,
    }
}

/// The command for `action` under the configuration `p`. Its arguments are,
/// in this order: the toolchain selector, the subcommand, the target
/// selector, the configured targets, the feature selector, the configured
/// features, the flags of the action's category.
pub open spec fn command_spec(
    action: ActionOption,
    p: ParamsView,
    target: Token,
    features: Token,
) -> CommandView {
    CommandView {
        program: build_tool(),
        args: toolchain_selector(p.toolchain) + seq![subcommand(action)] + target_selector(
            action,
            target,
        ) + forwarded(p.targets) + feature_selector(action, features) + forwarded(
            feature_flags(action, p),
        ) + forwarded(category_flags(action, p)),
    }
}

/// Appends the tokens of `list` that are handed on.
fn append_forwarded(out: &mut Vec<String>, list: &Vec<String>)
    ensures
        token_views(final(out)@) == token_views(old(out)@) + forwarded(token_views(list@)),
{
    let ghost start = token_views(out@);
    let ghost l = token_views(list@);
    let ghost empties = seq![Seq::<char>::empty()];
    let mut i: usize = 0;
    assert(l.take(0) =~= Seq::empty());
    assert(start + without(l.take(0), empties) =~= start);
    while i < list.len()
        invariant
            i <= list.len(),
            l == token_views(list@),
            empties == seq![Seq::<char>::empty()],
            token_views(out@) == start + without(l.take(i as int), empties),
        decreases list.len() - i,
    {
        let ghost before = token_views(out@);
        let ghost sofar = without(l.take(i as int), empties);
        proof {
            assert(l.take(i + 1).drop_last() == l.take(i as int));
            assert(l.take(i + 1).last() == list[i as int]@);
            assert(empties[0] == Seq::<char>::empty());
            if list[i as int]@.len() == 0 {
                assert(list[i as int]@ =~= empties[0]);
            }
        }
        if !list[i].as_str().is_empty() {
            let token: String = list[i].clone();
            out.push(token);
            assert(token_views(out@) == before.push(list[i as int]@));
            assert((start + sofar).push(list[i as int]@) == start + sofar.push(list[i as int]@));
        }
        i += 1;
    }
    assert(l.take(list.len() as int) == l);
}

/// Lays out commands under one configuration.
#[derive(Debug, Clone, PartialEq, Eq)]
pub struct Actions {
    pub params: Params,
}

impl Actions {
    /// An executor for the configuration `params`.
    pub fn new(params: Params) -> (actions: Actions)
        ensures
            actions.params == params,
    {
        Actions { params }
    }

    /// The command for `action`, with `target` and `features` as the
    /// action's arguments. An action that takes no target, or reads no
    /// feature selection, does not look at the one it is given.
    pub fn command(&self, action: ActionOption, target: &str, features: &str) -> (c: CommandLine)
        ensures
            c@ == command_spec(action, self.params@, target@, features@),
    {
        let ghost p = self.params@;
        let mut args: Vec<String> = Vec::new();
        assert(token_views(args@) =~= Seq::empty());
        if !self.params.toolchain.as_str().is_empty() {
            let plus: String = "+".to_owned();
            let selector: String = plus.concat(self.params.toolchain.as_str());
            push_token(&mut args, selector.as_str());
        }
        assert(token_views(args@) =~= toolchain_selector(p.toolchain));
        let sub: &str = match action {
            ActionOption::BuildGeneric | ActionOption::BuildWithFeatures => "build",
            ActionOption::CheckGeneric | ActionOption::CheckWithFeatures => "check",
            ActionOption::TestGeneric | ActionOption::TestWithFeatures => "test",
            ActionOption::Clippy => "clippy",
            ActionOption::RustFlags => "rustc",
            ActionOption::Rustfmt => "fmt",
            ActionOption::SetUp => "fetch",
        };
        push_token(&mut args, sub);
        if action.needs_target() {
            push_token(&mut args, "--target");
            push_token(&mut args, target);
        }
        assert(token_views(args@) =~= toolchain_selector(p.toolchain) + seq![subcommand(action)]
            + target_selector(action, target@));
        append_forwarded(&mut args, &self.params.targets);
        let ghost upto_targets = token_views(args@);
        if action.reads_features() {
            if !features.is_empty() {
                push_token(&mut args, "--features");
                push_token(&mut args, features);
            }
            assert(token_views(args@) =~= upto_targets + feature_selector(action, features@));
            append_forwarded(&mut args, &self.params.features);
        } else {
            assert(forwarded(Seq::<Token>::empty()) =~= Seq::empty());
            assert(token_views(args@) =~= upto_targets + feature_selector(action, features@)
                + forwarded(feature_flags(action, p)));
        }
        let ghost upto_features = token_views(args@);
        match action {
            ActionOption::Clippy => {
                append_forwarded(&mut args, &self.params.clippy_flags);
            },
            ActionOption::Rustfmt | ActionOption::SetUp => {
                assert(forwarded(Seq::<Token>::empty()) =~= Seq::empty());
                assert(token_views(args@) =~= upto_features + forwarded(category_flags(action, p)));
            },
            _ => {
                append_forwarded(&mut args, &self.params.rust_flags);
            },
        }
        CommandLine { program: "cargo".to_owned(), args }
    }

    /// The command that builds `target`.
    pub fn build_generic(&self, target: &str) -> (c: CommandLine)
        ensures
            c@ == command_spec(ActionOption::BuildGeneric, self.params@, target@, Seq::empty()),
    {
        self.command(ActionOption::BuildGeneric, target, "")
    }

    /// The command that builds `target` with the selection `features`.
    pub fn build_with_features(&self, target: &str, features: &str) -> (c: CommandLine)
        ensures
            c@ == command_spec(ActionOption::BuildWithFeatures, self.params@, target@, features@),
    {
        self.command(ActionOption::BuildWithFeatures, target, features)
    }

    /// The command that type-checks `target`.
    pub fn check_generic(&self, target: &str) -> (c: CommandLine)
        ensures
            c@ == command_spec(ActionOption::CheckGeneric, self.params@, target@, Seq::empty()),
    {
        self.command(ActionOption::CheckGeneric, target, "")
    }

    /// The command that type-checks `target` with the selection `features`.
    pub fn check_with_features(&self, target: &str, features: &str) -> (c: CommandLine)
        ensures
            c@ == command_spec(ActionOption::CheckWithFeatures, self.params@, target@, features@),
    {
        self.command(ActionOption::CheckWithFeatures, target, features)
    }

    /// The command that runs the lints.
    pub fn clippy(&self) -> (c: CommandLine)
        ensures
            c@ == command_spec(ActionOption::Clippy, self.params@, Seq::empty(), Seq::empty()),
    {
        self.command(ActionOption::Clippy, "", "")
    }

    /// The command that hands the compiler flags to the compiler.
    pub fn rust_flags(&self) -> (c: CommandLine)
        ensures
            c@ == command_spec(ActionOption::RustFlags, self.params@, Seq::empty(), Seq::empty()),
    {
        self.command(ActionOption::RustFlags, "", "")
    }

    /// The command that formats the sources.
    pub fn rustfmt(&self) -> (c: CommandLine)
        ensures
            c@ == command_spec(ActionOption::Rustfmt, self.params@, Seq::empty(), Seq::empty()),
    {
        self.command(ActionOption::Rustfmt, "", "")
    }

    /// The command that makes the toolchain and the dependencies ready.
    pub fn set_up(&self) -> (c: CommandLine)
        ensures
            c@ == command_spec(ActionOption::SetUp, self.params@, Seq::empty(), Seq::empty()),
    {
        self.command(ActionOption::SetUp, "", "")
    }

    /// The command that tests `target`.
    pub fn test_generic(&self, target: &str) -> (c: CommandLine)
        ensures
            c@ == command_spec(ActionOption::TestGeneric, self.params@, target@, Seq::empty()),
    {
        self.command(ActionOption::TestGeneric, target, "")
    }

    /// The command that tests `target` with the selection `features`.
    pub fn test_with_features(&self, target: &str, features: &str) -> (c: CommandLine)
        ensures
            c@ == command_spec(ActionOption::TestWithFeatures, self.params@, target@, features@),
    {
        self.command(ActionOption::TestWithFeatures, target, features)
    }
}

} // verus!
