//! The actions that can be asked for, and the tokens that name them.

use vstd::prelude::*;
use crate::error::Error;
use crate::text::{same_text, Token};

verus! {

/// One of the ten actions.
#[derive(Debug, Clone, Copy, PartialEq, Eq, Structural)]
pub enum ActionOption {
    /// `build-generic`: build one target.
    BuildGeneric,
    /// `build-with-features`: build one target with a feature selection.
    BuildWithFeatures,
    /// `check-generic`: type-check one target.
    CheckGeneric,
    /// `check-with-features`: type-check one target with a feature selection.
    CheckWithFeatures,
    /// `lint`: run the lints.
    Clippy,
    /// `raw-flags`: hand compiler flags straight to the compiler.
    RustFlags,
    /// `format`: format the sources.
    Rustfmt,
    /// `set-up`: make the toolchain and the dependencies ready.
    SetUp,
    /// `test-generic`: test one target.
    TestGeneric,
    /// `test-with-features`: test one target with a feature selection.
    TestWithFeatures,
}

/// The token that names `action` on the command line.
pub open spec fn token_of(action: ActionOption) -> Token {
    match action {
        ActionOption::BuildGeneric => "build-generic"@,
        ActionOption::BuildWithFeatures => "build-with-features"@,
        ActionOption::CheckGeneric => "check-generic"@,
        ActionOption::CheckWithFeatures => "check-with-features"@,
        ActionOption::Clippy => "lint"@,
        ActionOption::RustFlags => "raw-flags"@,
        ActionOption::Rustfmt => "format"@,
        ActionOption::SetUp => "set-up"@,
        ActionOption::TestGeneric => "test-generic"@,
        ActionOption::TestWithFeatures => "test-with-features"@,
    }
}

/// The action that `token` names, if it names one.
pub open spec fn action_of(token: Token) -> Option<ActionOption> {
    if token == token_of(ActionOption::BuildGeneric) {
        Some(ActionOption::BuildGeneric)
    } else if token == token_of(ActionOption::BuildWithFeatures) {
        Some(ActionOption::BuildWithFeatures)
    } else if token == token_of(ActionOption::CheckGeneric) {
        Some(ActionOption::CheckGeneric)
    } else if token == token_of(ActionOption::CheckWithFeatures) {
        Some(ActionOption::CheckWithFeatures)
    } else if token == token_of(ActionOption::Clippy) {
        Some(ActionOption::Clippy)
    } else if token == token_of(ActionOption::RustFlags) {
        Some(ActionOption::RustFlags)
    } else if token == token_of(ActionOption::Rustfmt) {
        Some(ActionOption::Rustfmt)
    } else if token == token_of(ActionOption::SetUp) {
        Some(ActionOption::SetUp)
    } else if token == token_of(ActionOption::TestGeneric) {
        Some(ActionOption::TestGeneric)
    } else if token == token_of(ActionOption::TestWithFeatures) {
        Some(ActionOption::TestWithFeatures)
    } else {
        None
    }
}

/// Whether `action` needs a target as its first argument.
pub open spec fn takes_target(action: ActionOption) -> bool {
    match action {
        ActionOption::BuildGeneric
        | ActionOption::BuildWithFeatures
        | ActionOption::CheckGeneric
        | ActionOption::CheckWithFeatures
        | ActionOption::TestGeneric
        | ActionOption::TestWithFeatures => true,
        _ => false,
    }
}

/// Whether `action` reads an optional feature selection after its target.
pub open spec fn takes_features(action: ActionOption) -> bool {
    match action {
        ActionOption::BuildWithFeatures
        | ActionOption::CheckWithFeatures
        | ActionOption::TestWithFeatures => true,
        _ => false,
    }
}

/// Whether `action` reads an optional comma-separated list of flags.
pub open spec fn takes_flag_list(action: ActionOption) -> bool {
    action == ActionOption::Clippy || action == ActionOption::RustFlags
}

/// Every action is the one that its own token names: no two actions share a
/// token.
pub proof fn law_tokens_name_their_actions(action: ActionOption)
    ensures
        action_of(token_of(action)) == Some(action),
{
    reveal_strlit("build-generic");
    reveal_strlit("build-with-features");
    reveal_strlit("check-generic");
    reveal_strlit("check-with-features");
    reveal_strlit("lint");
    reveal_strlit("raw-flags");
    reveal_strlit("format");
    reveal_strlit("set-up");
    reveal_strlit("test-generic");
    reveal_strlit("test-with-features");
    assert("build-generic"@[0] == 'b' && "build-generic"@.len() == 13);
    assert("build-with-features"@[0] == 'b' && "build-with-features"@.len() == 19);
    assert("check-generic"@[0] == 'c' && "check-generic"@.len() == 13);
    assert("check-with-features"@[0] == 'c' && "check-with-features"@.len() == 19);
    assert("lint"@.len() == 4);
    assert("raw-flags"@.len() == 9);
    assert("format"@[0] == 'f' && "format"@.len() == 6);
    assert("set-up"@[0] == 's' && "set-up"@.len() == 6);
    assert("test-generic"@.len() == 12);
    assert("test-with-features"@.len() == 18);
}

impl ActionOption {
    /// Reads an action from its token.
    pub fn parse(token: &str) -> (r: Result<ActionOption, Error>)
        ensures
            r == match action_of(token@) {
                Some(action) => Ok::<ActionOption, Error>(action),
                None => Err(Error::UnknownAction),
            },
    {
        if same_text(token, "build-generic") {
            Ok(ActionOption::BuildGeneric)
        } else if same_text(token, "build-with-features") {
            Ok(ActionOption::BuildWithFeatures)
        } else if same_text(token, "check-generic") {
            Ok(ActionOption::CheckGeneric)
        } else if same_text(token, "check-with-features") {
            Ok(ActionOption::CheckWithFeatures)
        } else if same_text(token, "lint") {
            Ok(ActionOption::Clippy)
        } else if same_text(token, "raw-flags") {
            Ok(ActionOption::RustFlags)
        } else if same_text(token, "format") {
            Ok(ActionOption::Rustfmt)
        } else if same_text(token, "set-up") {
            Ok(ActionOption::SetUp)
        } else if same_text(token, "test-generic") {
            Ok(ActionOption::TestGeneric)
        } else if same_text(token, "test-with-features") {
            Ok(ActionOption::TestWithFeatures)
        } else {
            Err(Error::UnknownAction)
        }
    }

    /// Whether the action needs a target as its first argument.
    pub fn needs_target(&self) -> (b: bool)
        ensures
            b == takes_target(*self),
    {
        match self {
            ActionOption::BuildGeneric
            | ActionOption::BuildWithFeatures
            | ActionOption::CheckGeneric
            | ActionOption::CheckWithFeatures
            | ActionOption::TestGeneric
            | ActionOption::TestWithFeatures => true,
            _ => false,
        }
    }

    /// Whether the action reads an optional feature selection.
    pub fn reads_features(&self) -> (b: bool)
        ensures
            b == takes_features(*self),
    {
        match self {
            ActionOption::BuildWithFeatures
            | ActionOption::CheckWithFeatures
            | ActionOption::TestWithFeatures => true,
            _ => false,
        }
    }

    /// Whether the action reads an optional list of flags.
    pub fn reads_flag_list(&self) -> (b: bool)
        ensures
            b == takes_flag_list(*self),
    {
        match self {
            ActionOption::Clippy | ActionOption::RustFlags => true,
            _ => false,
        }
    }
}

} // verus!
