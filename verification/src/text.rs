//! Strings as sequences of characters, and lists of strings as sequences of
//! such sequences: the vocabulary in which every contract of this crate is
//! written, with the few string routines the rest is built from.

use vstd::prelude::*;
use vstd::string::StrSliceExecFns;

verus! {

/// A token as contracts see it.
pub type Token = Seq<char>;

/// The tokens that a list of strings holds, in order.
pub open spec fn token_views(v: Seq<String>) -> Seq<Token> {
    Seq::new(v.len(), |i: int| v[i]@)
}

/// Where `sep` first stands in `s`; `s.len()` where it does not occur.
pub open spec fn first_index(s: Token, sep: char) -> int
    decreases s.len(),
{
    if s.len() == 0 || s[0] == sep {
        0
    } else {
        1 + first_index(s.skip(1), sep)
    }
}

/// The pieces of `s` between occurrences of `sep`. There is always at least
/// one piece: the empty text splits into one empty piece, and a trailing
/// separator is followed by an empty piece.
pub open spec fn split_spec(s: Token, sep: char) -> Seq<Token>
    decreases s.len(),
{
    let i = first_index(s, sep);
    if 0 <= i < s.len() {
        seq![s.take(i)] + split_spec(s.skip(i + 1), sep)
    } else {
        seq![s]
    }
}

/// `first_index` is the position `j` as soon as nothing before `j` is the
/// separator and `j` is either the end or a separator.
pub proof fn lemma_first_index(s: Token, sep: char, j: int)
    requires
        0 <= j <= s.len(),
        forall|k: int| 0 <= k < j ==> s[k] != sep,
        j < s.len() ==> s[j] == sep,
    ensures
        first_index(s, sep) == j,
    decreases s.len(),
{
    if j > 0 {
        let rest = s.skip(1);
        assert forall|k: int| 0 <= k < j - 1 implies rest[k] != sep by {
            assert(rest[k] == s[k + 1]);
        }
        lemma_first_index(rest, sep, j - 1);
    }
}

/// `first_index` is a place in `s` or its end, nothing before it is the
/// separator, and the separator stands at it unless it is the end.
pub proof fn lemma_first_index_is_first(s: Token, sep: char)
    ensures
        0 <= first_index(s, sep) <= s.len(),
        forall|k: int| 0 <= k < first_index(s, sep) ==> s[k] != sep,
        first_index(s, sep) < s.len() ==> s[first_index(s, sep)] == sep,
    decreases s.len(),
{
    if s.len() > 0 && s[0] != sep {
        let rest = s.skip(1);
        lemma_first_index_is_first(rest, sep);
        assert forall|k: int| 0 <= k < first_index(s, sep) implies s[k] != sep by {
            if k > 0 {
                assert(rest[k - 1] == s[k]);
            }
        }
    }
}

/// The pieces with `sep` put back between them.
pub open spec fn join_spec(pieces: Seq<Token>, sep: char) -> Token
    decreases pieces.len(),
{
    if pieces.len() == 0 {
        Seq::empty()
    } else if pieces.len() == 1 {
        pieces[0]
    } else {
        pieces[0] + seq![sep] + join_spec(pieces.skip(1), sep)
    }
}

/// Splitting loses nothing and cuts everywhere: there is at least one piece,
/// no piece holds the separator, and the pieces with the separator put back
/// between them are the text.
pub proof fn law_split_then_join(s: Token, sep: char)
    ensures
        split_spec(s, sep).len() >= 1,
        forall|i: int| 0 <= i < split_spec(s, sep).len() ==> !split_spec(s, sep)[i].contains(sep),
        join_spec(split_spec(s, sep), sep) == s,
    decreases s.len(),
{
    let at = first_index(s, sep);
    let pieces = split_spec(s, sep);
    lemma_first_index_is_first(s, sep);
    if at < s.len() {
        let head = s.take(at);
        let rest = s.skip(at + 1);
        let tail = split_spec(rest, sep);
        law_split_then_join(rest, sep);
        assert(pieces.skip(1) == tail);
        assert(head + seq![sep] + rest == s);
        assert forall|i: int| 0 <= i < pieces.len() implies !pieces[i].contains(sep) by {
            if i > 0 {
                assert(pieces[i] == tail[i - 1]);
            }
        }
    }
}

/// Whether two strings hold the same characters.
pub fn same_text(a: &str, b: &str) -> (same: bool)
    ensures
        same == (a@ == b@),
{
    a.to_owned() == b.to_owned()
}

/// Whether `list` holds `token`.
pub fn contains_token(list: &Vec<String>, token: &String) -> (found: bool)
    ensures
        found == token_views(list@).contains(token@),
{
    let mut i: usize = 0;
    while i < list.len()
        invariant
            i <= list.len(),
            forall|j: int| 0 <= j < i ==> token_views(list@)[j] != token@,
        decreases list.len() - i,
    {
        if list[i] == *token {
            assert(token_views(list@)[i as int] == token@);
            return true;
        }
        i += 1;
    }
    false
}

/// Cuts `s` at every `sep`.
pub fn split_on(s: &str, sep: char) -> (parts: Vec<String>)
    ensures
        token_views(parts@) == split_spec(s@, sep),
{
    let n: usize = s.unicode_len();
    let mut parts: Vec<String> = Vec::new();
    let mut start: usize = 0;
    let mut i: usize = 0;
    assert(s@.skip(0) == s@);
    assert(token_views(parts@) + split_spec(s@, sep) == split_spec(s@, sep));
    for c in it: s.chars()
        invariant
            it.seq() == s@,
            n == s@.len(),
            i == it.index(),
            start <= i,
            forall|k: int| start <= k < i ==> s@[k] != sep,
            split_spec(s@, sep) == token_views(parts@) + split_spec(s@.skip(start as int), sep),
    {
        if c == sep {
            let piece: String = s.substring_char(start, i).to_owned();
            proof {
                let tail = s@.skip(start as int);
                assert forall|k: int| 0 <= k < i - start implies tail[k] != sep by {
                    assert(tail[k] == s@[start + k]);
                }
                lemma_first_index(tail, sep, i - start);
                assert(tail.take(i - start) == s@.subrange(start as int, i as int));
                assert(tail.skip(i - start + 1) == s@.skip(i + 1));
                assert(token_views(parts@.push(piece)) == token_views(parts@) + seq![piece@]);
            }
            parts.push(piece);
            start = i + 1;
        }
        i += 1;
    }
    let piece: String = s.substring_char(start, i).to_owned();
    proof {
        let tail = s@.skip(start as int);
        assert forall|k: int| 0 <= k < i - start implies tail[k] != sep by {
            assert(tail[k] == s@[start + k]);
        }
        lemma_first_index(tail, sep, i - start);
        assert(tail == s@.subrange(start as int, i as int));
        assert(token_views(parts@.push(piece)) == token_views(parts@) + seq![piece@]);
    }
    parts.push(piece);
    parts
}

/// Appends one token to a list.
pub fn push_token(list: &mut Vec<String>, token: &str)
    ensures
        token_views(final(list)@) == token_views(old(list)@).push(token@),
{
    let owned: String = token.to_owned();
    list.push(owned);
    assert(token_views(list@) =~= token_views(old(list)@).push(token@));
}

/// Appends the pieces of `list` between its separators to `flags`.
pub fn append_split(flags: &mut Vec<String>, list: &str, sep: char)
    ensures
        token_views(final(flags)@) == token_views(old(flags)@) + split_spec(list@, sep),
{
    let mut pieces: Vec<String> = split_on(list, sep);
    let ghost added = pieces@;
    flags.append(&mut pieces);
    assert(token_views(flags@) =~= token_views(old(flags)@) + token_views(added));
}

/// Where `c` first stands in `s`, counted in characters; the length of `s`
/// where it does not occur.
pub fn find_char(s: &str, c: char) -> (i: usize)
    ensures
        i == first_index(s@, c),
        i <= s@.len(),
{
    let n: usize = s.unicode_len();
    let mut i: usize = 0;
    for ch in it: s.chars()
        invariant
            it.seq() == s@,
            n == s@.len(),
            i == it.index(),
            forall|k: int| 0 <= k < i ==> s@[k] != c,
    {
        if ch == c {
            proof {
                lemma_first_index(s@, c, i as int);
            }
            return i;
        }
        i += 1;
    }
    proof {
        lemma_first_index(s@, c, i as int);
    }
    i
}

} // verus!
