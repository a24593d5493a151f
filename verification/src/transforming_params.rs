//! The change that one invocation asks for.

use vstd::prelude::*;
use crate::text::{token_views, Token};

verus! {

/// A change to a configuration: a toolchain to switch to, and for the
/// compiler flags and the lint flags a list of tokens to take away and a list
/// of tokens to make sure of. The lists are read as sets: only whether a token
/// occurs in one matters, except that tokens are appended in the order in
/// which the addition list first names them.
#[derive(Debug, Clone, PartialEq, Eq)]
pub struct TransformingParams {
    /// The toolchain to switch to; empty to keep the configured one.
    pub toolchain: String,
    pub add_rust_flags: Vec<String>,
    pub rm_rust_flags: Vec<String>,
    pub add_clippy_flags: Vec<String>,
    pub rm_clippy_flags: Vec<String>,
}

/// What a `TransformingParams` holds.
pub struct TransformView {
    pub toolchain: Token,
    pub add_rust_flags: Seq<Token>,
    pub rm_rust_flags: Seq<Token>,
    pub add_clippy_flags: Seq<Token>,
    pub rm_clippy_flags: Seq<Token>,
}

impl TransformView {
    /// The change that changes nothing.
    pub open spec fn empty() -> TransformView {
        TransformView {
            toolchain: Seq::empty(),
            add_rust_flags: Seq::empty(),
            rm_rust_flags: Seq::empty(),
            add_clippy_flags: Seq::empty(),
            rm_clippy_flags: Seq::empty(),
        }
    }
}

impl View for TransformingParams {
    type V = TransformView;

    open spec fn view(&self) -> TransformView {
        TransformView {
            toolchain: self.toolchain@,
            add_rust_flags: token_views(self.add_rust_flags@),
            rm_rust_flags: token_views(self.rm_rust_flags@),
            add_clippy_flags: token_views(self.add_clippy_flags@),
            rm_clippy_flags: token_views(self.rm_clippy_flags@),
        }
    }
}

impl TransformingParams {
    /// The change that changes nothing.
    pub fn new() -> (tp: TransformingParams)
        ensures
            tp@ == TransformView::empty(),
    {
        let tp = TransformingParams {
            toolchain: String::new(),
            add_rust_flags: Vec::new(),
            rm_rust_flags: Vec::new(),
            add_clippy_flags: Vec::new(),
            rm_clippy_flags: Vec::new(),
        };
        assert(tp@.add_rust_flags =~= Seq::empty());
        assert(tp@.rm_rust_flags =~= Seq::empty());
        assert(tp@.add_clippy_flags =~= Seq::empty());
        assert(tp@.rm_clippy_flags =~= Seq::empty());
        tp
    }
}

impl Default for TransformingParams {
    fn default() -> (tp: TransformingParams)
        ensures
            tp@ == TransformView::empty(),
    {
        TransformingParams::new()
    }
}

} // verus!
