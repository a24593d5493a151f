//! Named presets: configurations that are known by name.

use vstd::prelude::*;
use crate::error::Error;
use crate::params::{Params, ParamsView};
use crate::text::{push_token, same_text, token_views, Token};

verus! {

/// A preset.
#[derive(Debug, Clone, Copy, PartialEq, Eq, Structural)]
pub enum CfgOption {
    /// `you-rust`: a strict set of compiler and lint flags.
    YouRust,
}

/// The preset that `name` names, if it names one.
pub open spec fn preset_of(name: Token) -> Option<CfgOption> {
    if name == "you-rust"@ {
        Some(CfgOption::YouRust)
    } else {
        None
    }
}

/// The lint flags of `you-rust`.
pub open spec fn you_rust_clippy_flags() -> Seq<Token> {
    seq![
        "-Dclippy::restriction"@,
        "-Dwarnings"@,
        "-Aclippy::implicit_return"@,
        "-Aclippy::missing_docs_in_private_items"@,
    ]
}

/// The compiler flags of `you-rust`.
pub open spec fn you_rust_rust_flags() -> Seq<Token> {
    seq![
        "-Dbad_style"@,
        "-Dfuture_incompatible"@,
        "-Dmissing_debug_implementations"@,
        "-Dmissing_docs"@,
        "-Dnonstandard_style"@,
        "-Drust_2018_compatibility"@,
        "-Drust_2018_idioms"@,
        "-Dtrivial_casts"@,
        "-Dunused_lifetimes"@,
        "-Dunused_qualifications"@,
        "-Dwarnings"@,
    ]
}

/// The configuration that `preset` stands for: the build tool's own
/// toolchain, no targets, no features, and the preset's flags.
pub open spec fn preset_params(preset: CfgOption) -> ParamsView {
    match preset {
        CfgOption::YouRust => ParamsView {
            toolchain: Seq::empty(),
            targets: Seq::empty(),
            features: Seq::empty(),
            rust_flags: you_rust_rust_flags(),
            clippy_flags: you_rust_clippy_flags(),
        },
    }
}

impl CfgOption {
    /// Reads a preset from its name.
    pub fn parse(name: &str) -> (r: Result<CfgOption, Error>)
        ensures
            r == match preset_of(name@) {
                Some(preset) => Ok::<CfgOption, Error>(preset),
                None => Err(Error::UnknownTemplate),
            },
    {
        if same_text(name, "you-rust") {
            Ok(CfgOption::YouRust)
        } else {
            Err(Error::UnknownTemplate)
        }
    }

    /// The configuration that the preset stands for.
    pub fn into_params(self) -> (p: Params)
        ensures
            p@ == preset_params(self),
    {
        let mut p = Params::new();
        match self {
            CfgOption::YouRust => {
                let mut clippy: Vec<String> = Vec::new();
                assert(token_views(clippy@) =~= Seq::empty());
                push_token(&mut clippy, "-Dclippy::restriction");
                push_token(&mut clippy, "-Dwarnings");
                push_token(&mut clippy, "-Aclippy::implicit_return");
                push_token(&mut clippy, "-Aclippy::missing_docs_in_private_items");
                assert(token_views(clippy@) =~= you_rust_clippy_flags());
                let mut rust: Vec<String> = Vec::new();
                assert(token_views(rust@) =~= Seq::empty());
                push_token(&mut rust, "-Dbad_style");
                push_token(&mut rust, "-Dfuture_incompatible");
                push_token(&mut rust, "-Dmissing_debug_implementations");
                push_token(&mut rust, "-Dmissing_docs");
                push_token(&mut rust, "-Dnonstandard_style");
                push_token(&mut rust, "-Drust_2018_compatibility");
                push_token(&mut rust, "-Drust_2018_idioms");
                push_token(&mut rust, "-Dtrivial_casts");
                push_token(&mut rust, "-Dunused_lifetimes");
                push_token(&mut rust, "-Dunused_qualifications");
                push_token(&mut rust, "-Dwarnings");
                assert(token_views(rust@) =~= you_rust_rust_flags());
                p.clippy_flags = clippy;
                p.rust_flags = rust;
            },
        }
        p
    }
}

/// Expands the preset that `name` names; `UnknownTemplate` where it names
/// none.
pub fn load_from_template(name: &str) -> (r: Result<Params, Error>)
    ensures
        match preset_of(name@) {
            Some(preset) => r is Ok && r->Ok_0@ == preset_params(preset),
            None => r is Err && r->Err_0 == Error::UnknownTemplate,
        },
{
    match CfgOption::parse(name) {
        Ok(preset) => Ok(preset.into_params()),
        Err(e) => Err(e),
    }
}

} // verus!
