//! The configuration text: one `key=value` entry per line.

use vstd::prelude::*;
use vstd::string::StrSliceExecFns;
use crate::error::Error;
use crate::params::{Params, ParamsView};
use crate::text::{
    append_split,
    find_char,
    first_index,
    same_text,
    split_on,
    split_spec,
    token_views,
    Token,
};
use crate::transforming_params::{TransformView, TransformingParams};

verus! {

/// The configuration `p` after the entry `line`, or `None` where `line` is
/// no entry. An empty line changes nothing. Any other line is a key, the
/// first `=`, and a value. The key `toolchain` sets the toolchain to the
/// value; the keys `targets`, `features`, `rust_flags` and `clippy_flags`
/// append the pieces of the value between its commas to their list. A line
/// without `=`, or with another key, is no entry.
pub open spec fn apply_line(p: ParamsView, line: Token) -> Option<ParamsView> {
    let at = first_index(line, '=');
    let key = line.take(at);
    let value = line.skip(at + 1);
    if line.len() == 0 {
        Some(p)
    } else if at >= line.len() {
        None
    } else if key == "toolchain"@ {
        Some(ParamsView { toolchain: value, ..p })
    } else if key == "targets"@ {
        Some(ParamsView { targets: p.targets + split_spec(value, ','), ..p })
    } else if key == "features"@ {
        Some(ParamsView { features: p.features + split_spec(value, ','), ..p })
    } else if key == "rust_flags"@ {
        Some(ParamsView { rust_flags: p.rust_flags + split_spec(value, ','), ..p })
    } else if key == "clippy_flags"@ {
        Some(ParamsView { clippy_flags: p.clippy_flags + split_spec(value, ','), ..p })
    } else {
        None
    }
}

/// The configuration `p` after the entries `lines`, from the first to the
/// last, or `None` where one of them is no entry.
pub open spec fn apply_lines(p: ParamsView, lines: Seq<Token>) -> Option<ParamsView>
    decreases lines.len(),
{
    if lines.len() == 0 {
        Some(p)
    } else {
        match apply_lines(p, lines.drop_last()) {
            Some(sofar) => apply_line(sofar, lines.last()),
            None => None,
        }
    }
}

/// The configuration that `text` describes: the empty configuration after
/// the lines of `text`, which line feeds separate.
pub open spec fn cfg_spec(text: Token) -> Option<ParamsView> {
    apply_lines(ParamsView::empty(), split_spec(text, '\n'))
}

/// Applies one line to `params`; says whether the line was an entry.
fn read_line(params: &mut Params, line: &str) -> (entry: bool)
    ensures
        match apply_line(old(params)@, line@) {
            Some(p) => entry && final(params)@ == p,
            None => !entry,
        },
{
    let n: usize = line.unicode_len();
    if n == 0 {
        return true;
    }
    let at: usize = find_char(line, '=');
    if at >= n {
        return false;
    }
    let key: &str = line.substring_char(0, at);
    let value: &str = line.substring_char(at + 1, n);
    assert(key@ == line@.take(at as int));
    assert(value@ == line@.skip(at + 1));
    if same_text(key, "toolchain") {
        params.toolchain = value.to_owned();
        true
    } else if same_text(key, "targets") {
        append_split(&mut params.targets, value, ',');
        true
    } else if same_text(key, "features") {
        append_split(&mut params.features, value, ',');
        true
    } else if same_text(key, "rust_flags") {
        append_split(&mut params.rust_flags, value, ',');
        true
    } else if same_text(key, "clippy_flags") {
        append_split(&mut params.clippy_flags, value, ',');
        true
    } else {
        false
    }
}

/// Reads a configuration from the text of a configuration file. Gives the
/// configuration that the text describes, with the change that changes
/// nothing, or `ConfigParseError` where a line of the text is no entry.
pub fn parse_cfg(text: &str) -> (r: Result<(Params, TransformingParams), Error>)
    ensures
        match cfg_spec(text@) {
            Some(p) => r is Ok && r->Ok_0.0@ == p && r->Ok_0.1@ == TransformView::empty(),
            None => r is Err && r->Err_0 == Error::ConfigParseError,
        },
{
    let lines: Vec<String> = split_on(text, '\n');
    let ghost all = token_views(lines@);
    let mut params = Params::new();
    let mut i: usize = 0;
    assert(all.take(0) =~= Seq::empty());
    while i < lines.len()
        invariant
            i <= lines.len(),
            all == token_views(lines@),
            all == split_spec(text@, '\n'),
            apply_lines(ParamsView::empty(), all.take(i as int)) == Some(params@),
        decreases lines.len() - i,
    {
        proof {
            assert(all.take(i + 1).drop_last() == all.take(i as int));
            assert(all.take(i + 1).last() == lines[i as int]@);
        }
        let ghost before = params@;
        let entry = read_line(&mut params, lines[i].as_str());
        if !entry {
            proof {
                assert(apply_line(before, lines[i as int]@) is None);
                assert(apply_lines(ParamsView::empty(), all.take(i + 1)) is None);
                lemma_failure_stays(ParamsView::empty(), all, i + 1);
            }
            return Err(Error::ConfigParseError);
        }
        i += 1;
    }
    assert(all.take(lines.len() as int) == all);
    Ok((params, TransformingParams::new()))
}

/// What an invocation starts from where it names no configuration file:
/// the empty configuration and the change that changes nothing.
pub fn default_cfg() -> (r: (Params, TransformingParams))
    ensures
        r.0@ == ParamsView::empty(),
        r.1@ == TransformView::empty(),
{
    (Params::new(), TransformingParams::new())
}

/// Lines that fail up to some line fail as a whole.
proof fn lemma_failure_stays(p: ParamsView, lines: Seq<Token>, upto: int)
    requires
        0 <= upto <= lines.len(),
        apply_lines(p, lines.take(upto)) is None,
    ensures
        apply_lines(p, lines) is None,
    decreases lines.len() - upto,
{
    if upto < lines.len() {
        assert(lines.take(upto + 1).drop_last() == lines.take(upto));
        lemma_failure_stays(p, lines, upto + 1);
    } else {
        assert(lines.take(upto) == lines);
    }
}

} // verus!
