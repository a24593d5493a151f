//! The ways in which an invocation can be turned down.

use vstd::prelude::*;

verus! {

/// Why an invocation was rejected before any command was laid out.
#[derive(Debug, Clone, Copy, PartialEq, Eq, Structural)]
pub enum Error {
    /// A positional token was needed and the argument list had run out.
    WrongNumberOfArgs { expected: usize, received: usize },
    /// The action token names none of the known actions.
    UnknownAction,
    /// The template name names none of the known presets.
    UnknownTemplate,
    /// A line of the configuration text is not of the form `key=value`
    /// with a known key.
    ConfigParseError,
}

/// The error every reader of the argument list reports when a token that it
/// needs is not there.
pub open spec fn missing_arg() -> Error {
    Error::WrongNumberOfArgs { expected: 1, received: 0 }
}

} // verus!
