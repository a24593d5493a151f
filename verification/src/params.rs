//! The build configuration and the merge of a change onto it.

use vstd::prelude::*;
use crate::text::{contains_token, token_views, Token};
use crate::transforming_params::{TransformView, TransformingParams};

verus! {

/// The build configuration: which toolchain to run, and four lists of tokens
/// that are handed on to the build tool.
#[derive(Debug, Clone, PartialEq, Eq)]
pub struct Params {
    /// The toolchain to run; empty for the build tool's own choice.
    pub toolchain: String,
    pub targets: Vec<String>,
    pub features: Vec<String>,
    pub rust_flags: Vec<String>,
    pub clippy_flags: Vec<String>,
}

/// What a `Params` holds.
pub struct ParamsView {
    pub toolchain: Token,
    pub targets: Seq<Token>,
    pub features: Seq<Token>,
    pub rust_flags: Seq<Token>,
    pub clippy_flags: Seq<Token>,
}

impl ParamsView {
    /// The configuration with no toolchain and no tokens.
    pub open spec fn empty() -> ParamsView {
        ParamsView {
            toolchain: Seq::empty(),
            targets: Seq::empty(),
            features: Seq::empty(),
            rust_flags: Seq::empty(),
            clippy_flags: Seq::empty(),
        }
    }
}

impl View for Params {
    type V = ParamsView;

    open spec fn view(&self) -> ParamsView {
        ParamsView {
            toolchain: self.toolchain@,
            targets: token_views(self.targets@),
            features: token_views(self.features@),
            rust_flags: token_views(self.rust_flags@),
            clippy_flags: token_views(self.clippy_flags@),
        }
    }
}

/// `base` without the tokens that `rm` names, the others in their order.
pub open spec fn without(base: Seq<Token>, rm: Seq<Token>) -> Seq<Token>
    decreases base.len(),
{
    if base.len() == 0 {
        base
    } else {
        let front = without(base.drop_last(), rm);
        if rm.contains(base.last()) {
            front
        } else {
            front.push(base.last())
        }
    }
}

/// `base` followed by the tokens of `add` that it lacks, each once, in the
/// order in which `add` first names them.
pub open spec fn with_missing(base: Seq<Token>, add: Seq<Token>) -> Seq<Token>
    decreases add.len(),
{
    if add.len() == 0 {
        base
    } else {
        let sofar = with_missing(base, add.drop_last());
        if sofar.contains(add.last()) {
            sofar
        } else {
            sofar.push(add.last())
        }
    }
}

/// One category after a merge: first the removals, then the additions.
pub open spec fn merge_flags(base: Seq<Token>, rm: Seq<Token>, add: Seq<Token>) -> Seq<Token> {
    with_missing(without(base, rm), add)
}

/// A configuration after a merge. The toolchain is replaced where the change
/// names one; the compiler flags and the lint flags are merged; targets and
/// features are not touched.
pub open spec fn merged(p: ParamsView, t: TransformView) -> ParamsView {
    ParamsView {
        toolchain: if t.toolchain.len() > 0 { t.toolchain } else { p.toolchain },
        targets: p.targets,
        features: p.features,
        rust_flags: merge_flags(p.rust_flags, t.rm_rust_flags, t.add_rust_flags),
        clippy_flags: merge_flags(p.clippy_flags, t.rm_clippy_flags, t.add_clippy_flags),
    }
}

/// Merges one category.
fn merge_list(base: &Vec<String>, rm: &Vec<String>, add: &Vec<String>) -> (out: Vec<String>)
    ensures
        token_views(out@) == merge_flags(token_views(base@), token_views(rm@), token_views(add@)),
{
    let ghost b = token_views(base@);
    let ghost r = token_views(rm@);
    let ghost a = token_views(add@);
    let mut out: Vec<String> = Vec::new();
    let mut i: usize = 0;
    assert(b.take(0) =~= Seq::empty());
    assert(token_views(out@) =~= Seq::empty());
    while i < base.len()
        invariant
            i <= base.len(),
            b == token_views(base@),
            r == token_views(rm@),
            token_views(out@) == without(b.take(i as int), r),
        decreases base.len() - i,
    {
        let ghost before = token_views(out@);
        proof {
            assert(b.take(i + 1).drop_last() == b.take(i as int));
            assert(b.take(i + 1).last() == base[i as int]@);
        }
        if !contains_token(rm, &base[i]) {
            let token: String = base[i].clone();
            out.push(token);
            assert(token_views(out@) == before.push(base[i as int]@));
        }
        i += 1;
    }
    assert(b.take(base.len() as int) == b);
    let mut j: usize = 0;
    assert(a.take(0) =~= Seq::empty());
    while j < add.len()
        invariant
            j <= add.len(),
            a == token_views(add@),
            token_views(out@) == with_missing(without(b, r), a.take(j as int)),
        decreases add.len() - j,
    {
        let ghost before = token_views(out@);
        proof {
            assert(a.take(j + 1).drop_last() == a.take(j as int));
            assert(a.take(j + 1).last() == add[j as int]@);
        }
        if !contains_token(&out, &add[j]) {
            let token: String = add[j].clone();
            out.push(token);
            assert(token_views(out@) == before.push(add[j as int]@));
        }
        j += 1;
    }
    assert(a.take(add.len() as int) == a);
    out
}

impl Params {
    /// The configuration with no toolchain and no tokens.
    pub fn new() -> (p: Params)
        ensures
            p@ == ParamsView::empty(),
    {
        let p = Params {
            toolchain: String::new(),
            targets: Vec::new(),
            features: Vec::new(),
            rust_flags: Vec::new(),
            clippy_flags: Vec::new(),
        };
        assert(p@.targets =~= Seq::empty());
        assert(p@.features =~= Seq::empty());
        assert(p@.rust_flags =~= Seq::empty());
        assert(p@.clippy_flags =~= Seq::empty());
        p
    }

    /// Applies `tp`: switches the toolchain where `tp` names one, then in the
    /// compiler flags and in the lint flags drops every token that the removal
    /// list names and appends every token of the addition list that is then
    /// not there.
    pub fn modify(&mut self, tp: &TransformingParams)
        ensures
            final(self)@ == merged(old(self)@, tp@),
    {
        if !tp.toolchain.as_str().is_empty() {
            self.toolchain = tp.toolchain.clone();
        }
        self.rust_flags = merge_list(&self.rust_flags, &tp.rm_rust_flags, &tp.add_rust_flags);
        self.clippy_flags = merge_list(&self.clippy_flags, &tp.rm_clippy_flags, &tp.add_clippy_flags);
    }
}

impl Default for Params {
    fn default() -> (p: Params)
        ensures
            p@ == ParamsView::empty(),
    {
        Params::new()
    }
}

} // verus!
