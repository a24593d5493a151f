//! From the leading part of an invocation and a configuration to the one
//! command to run.

use vstd::prelude::*;
use crate::action_option::{action_of, takes_features, takes_flag_list, takes_target, ActionOption};
use crate::actions::{command_spec, Actions, CommandLine, CommandView};
use crate::args::{after_first, first_or_empty, Args, GlobalArgs, GlobalsView};
use crate::cfg_option::{load_from_template, preset_of, preset_params};
use crate::error::{missing_arg, Error};
use crate::params::{merged, Params, ParamsView};
use crate::text::{append_split, split_spec, Token};
use crate::transforming_params::{TransformView, TransformingParams};

verus! {

/// What an invocation comes to.
#[derive(Debug, Clone, PartialEq, Eq)]
pub struct Plan {
    pub action: ActionOption,
    /// The action's target; empty for an action that takes none.
    pub target: String,
    /// The action's optional argument, a feature selection or a list of
    /// flags; empty where it is missing or the action reads none.
    pub list: String,
    /// The change that was merged, the action's own flag list included.
    pub transform: TransformingParams,
    /// The configuration after the merge.
    pub params: Params,
    /// The command to run.
    pub command: CommandLine,
}

/// What a `Plan` holds.
pub struct PlanView {
    pub action: ActionOption,
    pub target: Token,
    pub list: Token,
    pub transform: TransformView,
    pub params: ParamsView,
    pub command: CommandView,
}

impl View for Plan {
    type V = PlanView;

    open spec fn view(&self) -> PlanView {
        PlanView {
            action: self.action,
            target: self.target@,
            list: self.list@,
            transform: self.transform@,
            params: self.params@,
            command: self.command@,
        }
    }
}

/// The change `t` with the flag list of `action` folded in. The lints and
/// the raw compiler flags read one list, cut at the commas, and put its
/// tokens both on the addition list and on the removal list of their
/// category, behind what is there; a missing list is one empty token. Every
/// other action leaves the change as it is.
pub open spec fn extended(action: ActionOption, list: Token, t: TransformView) -> TransformView {
    match action {
        ActionOption::Clippy => TransformView {
            add_clippy_flags: t.add_clippy_flags + split_spec(list, ','),
            rm_clippy_flags: t.rm_clippy_flags + split_spec(list, ','),
            ..t
        },
        ActionOption::RustFlags => TransformView {
            add_rust_flags: t.add_rust_flags + split_spec(list, ','),
            rm_rust_flags: t.rm_rust_flags + split_spec(list, ','),
            ..t
        },
        _ => t,
    }
}

/// Folds the flag list of `action` into `tp`.
pub fn extend_transform(action: ActionOption, list: &str, tp: &mut TransformingParams)
    ensures
        final(tp)@ == extended(action, list@, old(tp)@),
{
    match action {
        ActionOption::Clippy => {
            append_split(&mut tp.add_clippy_flags, list, ',');
            append_split(&mut tp.rm_clippy_flags, list, ',');
        },
        ActionOption::RustFlags => {
            append_split(&mut tp.add_rust_flags, list, ',');
            append_split(&mut tp.rm_rust_flags, list, ',');
        },
        _ => {},
    }
}

/// The optional argument that `action` reads from the tokens behind its
/// target: the next token if the action reads one and it is there, else the
/// empty token.
pub open spec fn optional_arg(action: ActionOption, tokens: Seq<Token>) -> Token {
    if takes_features(action) || takes_flag_list(action) {
        first_or_empty(tokens)
    } else {
        Seq::empty()
    }
}

/// The plan for the action that `action_token` names, with `rest` as the
/// tokens behind it, and the tokens that the action leaves unread. An
/// unknown token is `UnknownAction`; a missing target is
/// `WrongNumberOfArgs`, and is only looked for once the action is known.
pub open spec fn plan_spec(
    action_token: Token,
    rest: Seq<Token>,
    p: ParamsView,
    t: TransformView,
) -> Result<(PlanView, Seq<Token>), Error> {
    match action_of(action_token) {
        None => Err(Error::UnknownAction),
        Some(action) => {
            if takes_target(action) && rest.len() == 0 {
                Err(missing_arg())
            } else {
                let target = if takes_target(action) { rest[0] } else { Seq::empty() };
                let behind = if takes_target(action) { rest.skip(1) } else { rest };
                let list = optional_arg(action, behind);
                let unread = if takes_features(action) || takes_flag_list(action) {
                    after_first(behind)
                } else {
                    behind
                };
                let transform = extended(action, list, t);
                let params = merged(p, transform);
                Ok(
                    (
                        PlanView {
                            action,
                            target,
                            list,
                            transform,
                            params,
                            command: command_spec(action, params, target, list),
                        },
                        unread,
                    ),
                )
            }
        },
    }
}

/// Reads the action that `action_string` names and its arguments from
/// `args`, merges `tp` with the action's own flag list onto `params`, and
/// lays out the command.
pub fn parse_action(
    args: &mut Args,
    action_string: &str,
    params: Params,
    tp: TransformingParams,
) -> (r: Result<Plan, Error>)
    ensures
        match plan_spec(action_string@, old(args)@, params@, tp@) {
            Ok((plan, unread)) => r is Ok && r->Ok_0@ == plan && final(args)@ == unread,
            Err(e) => r is Err && r->Err_0 == e,
        },
{
    let action = match ActionOption::parse(action_string) {
        Ok(action) => action,
        Err(e) => {
            return Err(e);
        },
    };
    let target: String = if action.needs_target() {
        match args.req() {
            Ok(token) => token,
            Err(e) => {
                return Err(e);
            },
        }
    } else {
        String::new()
    };
    let list: String = if action.reads_features() || action.reads_flag_list() {
        args.opt()
    } else {
        String::new()
    };
    let mut transform = tp;
    extend_transform(action, list.as_str(), &mut transform);
    let mut actions = Actions::new(params);
    actions.params.modify(&transform);
    let command = actions.command(action, target.as_str(), list.as_str());
    Ok(Plan { action, target, list, transform, params: actions.params, command })
}

/// The configuration and the change that the action is planned with: the
/// preset in place of the loaded configuration where `--template` names one,
/// and the toolchain of `--toolchain` in place of the loaded change's.
pub open spec fn settled(globals: GlobalsView, p: ParamsView, t: TransformView) -> Result<
    (ParamsView, TransformView),
    Error,
> {
    let change = if globals.toolchain.len() > 0 {
        TransformView { toolchain: globals.toolchain, ..t }
    } else {
        t
    };
    if globals.template.len() > 0 {
        match preset_of(globals.template) {
            Some(preset) => Ok((preset_params(preset), change)),
            None => Err(Error::UnknownTemplate),
        }
    } else {
        Ok((p, change))
    }
}

/// The plan for a whole invocation: `globals` is its leading part, `rest`
/// the tokens behind the action token, `p` and `t` what the configuration
/// file gave, or the empty configuration and change where none was named.
/// An unknown preset is reported before the action is looked at.
pub open spec fn dispatch_spec(
    globals: GlobalsView,
    rest: Seq<Token>,
    p: ParamsView,
    t: TransformView,
) -> Result<(PlanView, Seq<Token>), Error> {
    match settled(globals, p, t) {
        Err(e) => Err(e),
        Ok((params, change)) => plan_spec(globals.action, rest, params, change),
    }
}

/// Plans the invocation whose leading part is `globals` and whose remaining
/// tokens are in `args`, from the loaded configuration `params` and change
/// `tp`.
pub fn dispatch(args: &mut Args, globals: &GlobalArgs, params: Params, tp: TransformingParams) -> (r:
    Result<Plan, Error>)
    ensures
        match dispatch_spec(globals@, old(args)@, params@, tp@) {
            Ok((plan, unread)) => r is Ok && r->Ok_0@ == plan && final(args)@ == unread,
            Err(e) => r is Err && r->Err_0 == e,
        },
{
    let mut params = params;
    let mut tp = tp;
    if !globals.template.as_str().is_empty() {
        params = match load_from_template(globals.template.as_str()) {
            Ok(preset) => preset,
            Err(e) => {
                return Err(e);
            },
        };
    }
    if !globals.toolchain.as_str().is_empty() {
        tp.toolchain = globals.toolchain.clone();
    }
    parse_action(args, globals.action.as_str(), params, tp)
}

} // verus!
