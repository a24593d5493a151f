//! What holds of every merge.

use vstd::prelude::*;
use crate::params::{merge_flags, merged, with_missing, without, ParamsView};
use crate::text::Token;
use crate::transforming_params::TransformView;

verus! {

/// How often `t` stands in `s`.
pub open spec fn occurrences(s: Seq<Token>, t: Token) -> nat
    decreases s.len(),
{
    if s.len() == 0 {
        0
    } else {
        occurrences(s.drop_last(), t) + if s.last() == t { 1nat } else { 0nat }
    }
}

/// A list with one more token holds what it held, and that token.
proof fn lemma_push_holds(s: Seq<Token>, x: Token, t: Token)
    ensures
        s.push(x).contains(t) <==> s.contains(t) || x == t,
{
    let longer = s.push(x);
    if s.contains(t) {
        let i = choose|i: int| 0 <= i < s.len() && s[i] == t;
        assert(longer[i] == t);
    }
    if x == t {
        assert(longer[s.len() as int] == t);
    }
    if longer.contains(t) {
        let i = choose|i: int| 0 <= i < longer.len() && longer[i] == t;
        if i < s.len() {
            assert(s[i] == t);
        }
    }
}

/// A non-empty list holds what its front holds, and its last token.
proof fn lemma_last_holds(s: Seq<Token>, t: Token)
    requires
        s.len() > 0,
    ensures
        s.contains(t) <==> s.drop_last().contains(t) || s.last() == t,
{
    assert(s.drop_last().push(s.last()) == s);
    lemma_push_holds(s.drop_last(), s.last(), t);
}

/// A concatenation holds what either part holds.
proof fn lemma_concat_holds(a: Seq<Token>, b: Seq<Token>, t: Token)
    ensures
        (a + b).contains(t) <==> a.contains(t) || b.contains(t),
{
    if a.contains(t) {
        let i = choose|i: int| 0 <= i < a.len() && a[i] == t;
        assert((a + b)[i] == t);
    }
    if b.contains(t) {
        let i = choose|i: int| 0 <= i < b.len() && b[i] == t;
        assert((a + b)[a.len() + i] == t);
    }
    if (a + b).contains(t) {
        let i = choose|i: int| 0 <= i < (a + b).len() && (a + b)[i] == t;
        if i < a.len() {
            assert(a[i] == t);
        } else {
            assert(b[i - a.len()] == t);
        }
    }
}

/// A token occurs at least once exactly if the list holds it.
pub proof fn lemma_occurrences_contains(s: Seq<Token>, t: Token)
    ensures
        occurrences(s, t) > 0 <==> s.contains(t),
    decreases s.len(),
{
    if s.len() > 0 {
        lemma_occurrences_contains(s.drop_last(), t);
        lemma_last_holds(s, t);
    }
}

/// Dropping the named tokens drops all their occurrences and no others.
pub proof fn lemma_occurrences_without(base: Seq<Token>, rm: Seq<Token>, t: Token)
    ensures
        occurrences(without(base, rm), t) == if rm.contains(t) {
            0
        } else {
            occurrences(base, t)
        },
    decreases base.len(),
{
    if base.len() > 0 {
        lemma_occurrences_without(base.drop_last(), rm, t);
        let kept = without(base.drop_last(), rm);
        assert(kept.push(base.last()).drop_last() == kept);
    }
}

/// Appending the missing tokens adds one occurrence of each token that was
/// missing and named, and changes no other count.
pub proof fn lemma_occurrences_with_missing(base: Seq<Token>, add: Seq<Token>, t: Token)
    ensures
        occurrences(with_missing(base, add), t) == if base.contains(t) {
            occurrences(base, t)
        } else if add.contains(t) {
            1
        } else {
            0
        },
    decreases add.len(),
{
    lemma_occurrences_contains(base, t);
    if add.len() > 0 {
        let front = add.drop_last();
        let sofar = with_missing(base, front);
        lemma_occurrences_with_missing(base, front, t);
        lemma_occurrences_contains(sofar, t);
        lemma_last_holds(add, t);
        assert(sofar.push(add.last()).drop_last() == sofar);
    }
}

/// How often a token stands in a merged category: once where the removal
/// list and the addition list both name it; not at all where only the removal
/// list does; as often as before where the category held it and the removal
/// list does not name it; once where only the addition list names it.
pub proof fn law_merge_counts(base: Seq<Token>, rm: Seq<Token>, add: Seq<Token>, t: Token)
    ensures
        occurrences(merge_flags(base, rm, add), t) == if rm.contains(t) {
            if add.contains(t) { 1nat } else { 0nat }
        } else if base.contains(t) {
            occurrences(base, t)
        } else if add.contains(t) {
            1nat
        } else {
            0nat
        },
{
    let kept = without(base, rm);
    lemma_occurrences_without(base, rm, t);
    lemma_occurrences_with_missing(kept, add, t);
    lemma_occurrences_contains(kept, t);
    lemma_occurrences_contains(base, t);
}

/// A merged category holds a token exactly if the addition list names it, or
/// the category held it and the removal list does not name it.
pub proof fn law_merge_membership(base: Seq<Token>, rm: Seq<Token>, add: Seq<Token>, t: Token)
    ensures
        merge_flags(base, rm, add).contains(t) <==> add.contains(t) || (base.contains(t)
            && !rm.contains(t)),
{
    law_merge_counts(base, rm, add, t);
    lemma_occurrences_contains(merge_flags(base, rm, add), t);
    lemma_occurrences_contains(base, t);
}

/// After a merge a category holds no token that the removal list names,
/// unless the addition list names it too: additions come after removals.
pub proof fn law_removed_tokens_are_gone(
    base: Seq<Token>,
    rm: Seq<Token>,
    add: Seq<Token>,
    t: Token,
)
    requires
        rm.contains(t),
        !add.contains(t),
    ensures
        !merge_flags(base, rm, add).contains(t),
{
    law_merge_membership(base, rm, add, t);
}

/// After a merge a category holds every token of the addition list exactly
/// once, however often the list names it, provided the category did not
/// already hold it twice or more and keep it: the merge adds what is missing
/// and never thins out what it keeps.
pub proof fn law_added_tokens_stand_once(
    base: Seq<Token>,
    rm: Seq<Token>,
    add: Seq<Token>,
    t: Token,
)
    requires
        add.contains(t),
        rm.contains(t) || occurrences(base, t) <= 1,
    ensures
        occurrences(merge_flags(base, rm, add), t) == 1,
{
    law_merge_counts(base, rm, add, t);
    lemma_occurrences_contains(base, t);
}

/// A category in which no token stands twice is still such after a merge.
pub proof fn law_merge_keeps_tokens_distinct(base: Seq<Token>, rm: Seq<Token>, add: Seq<Token>)
    requires
        forall|t: Token| occurrences(base, t) <= 1,
    ensures
        forall|t: Token| occurrences(merge_flags(base, rm, add), t) <= 1,
{
    assert forall|t: Token| occurrences(merge_flags(base, rm, add), t) <= 1 by {
        law_merge_counts(base, rm, add, t);
    }
}

/// After `modify`, the compiler flags and the lint flags hold no token that
/// their removal list names and their addition list does not, and hold once
/// every token that their addition list names, unless the category already
/// held the token twice or more and the removal list does not name it.
pub proof fn law_modify_removes_then_adds(p: ParamsView, t: TransformView, token: Token)
    ensures
        t.rm_rust_flags.contains(token) && !t.add_rust_flags.contains(token) ==> !merged(
            p,
            t,
        ).rust_flags.contains(token),
        t.rm_clippy_flags.contains(token) && !t.add_clippy_flags.contains(token) ==> !merged(
            p,
            t,
        ).clippy_flags.contains(token),
        t.add_rust_flags.contains(token) && (t.rm_rust_flags.contains(token) || occurrences(
            p.rust_flags,
            token,
        ) <= 1) ==> occurrences(merged(p, t).rust_flags, token) == 1,
        t.add_clippy_flags.contains(token) && (t.rm_clippy_flags.contains(token) || occurrences(
            p.clippy_flags,
            token,
        ) <= 1) ==> occurrences(merged(p, t).clippy_flags, token) == 1,
        merged(p, t).targets == p.targets,
        merged(p, t).features == p.features,
{
    law_merge_counts(p.rust_flags, t.rm_rust_flags, t.add_rust_flags, token);
    law_merge_membership(p.rust_flags, t.rm_rust_flags, t.add_rust_flags, token);
    law_merge_counts(p.clippy_flags, t.rm_clippy_flags, t.add_clippy_flags, token);
    law_merge_membership(p.clippy_flags, t.rm_clippy_flags, t.add_clippy_flags, token);
    lemma_occurrences_contains(p.rust_flags, token);
    lemma_occurrences_contains(p.clippy_flags, token);
}

/// Removing from a list tokens of which it holds none changes nothing.
proof fn lemma_without_strangers(s: Seq<Token>, rm: Seq<Token>)
    requires
        forall|i: int| 0 <= i < s.len() ==> !rm.contains(s[i]),
    ensures
        without(s, rm) == s,
    decreases s.len(),
{
    if s.len() > 0 {
        let front = s.drop_last();
        assert forall|i: int| 0 <= i < front.len() implies !rm.contains(front[i]) by {
            assert(front[i] == s[i]);
        }
        lemma_without_strangers(front, rm);
        assert(!rm.contains(s[s.len() - 1]));
        assert(front.push(s.last()) == s);
    }
}

/// A change with no toolchain and four empty lists leaves every
/// configuration as it is.
pub proof fn law_empty_transform_changes_nothing(p: ParamsView, t: TransformView)
    requires
        t.toolchain.len() == 0,
        t.add_rust_flags.len() == 0,
        t.rm_rust_flags.len() == 0,
        t.add_clippy_flags.len() == 0,
        t.rm_clippy_flags.len() == 0,
    ensures
        merged(p, t) == p,
{
    lemma_without_strangers(p.rust_flags, t.rm_rust_flags);
    lemma_without_strangers(p.clippy_flags, t.rm_clippy_flags);
}

/// Every token that a removal leaves is one that the removal list does not
/// name.
proof fn lemma_without_leaves_strangers(base: Seq<Token>, rm: Seq<Token>)
    ensures
        forall|i: int| 0 <= i < without(base, rm).len() ==> !rm.contains(without(base, rm)[i]),
    decreases base.len(),
{
    if base.len() > 0 {
        let front = without(base.drop_last(), rm);
        lemma_without_leaves_strangers(base.drop_last(), rm);
        assert forall|i: int| 0 <= i < without(base, rm).len() implies !rm.contains(
            without(base, rm)[i],
        ) by {
            if i < front.len() {
                assert(without(base, rm)[i] == front[i]);
            }
        }
    }
}

/// A removal leaves the tokens of the list that the removal list does not
/// name.
proof fn lemma_without_holds(base: Seq<Token>, rm: Seq<Token>, t: Token)
    ensures
        without(base, rm).contains(t) <==> base.contains(t) && !rm.contains(t),
    decreases base.len(),
{
    if base.len() > 0 {
        lemma_without_holds(base.drop_last(), rm, t);
        lemma_last_holds(base, t);
        lemma_push_holds(without(base.drop_last(), rm), base.last(), t);
    }
}

/// A removal works on a concatenation part by part.
proof fn lemma_without_concat(a: Seq<Token>, b: Seq<Token>, rm: Seq<Token>)
    ensures
        without(a + b, rm) == without(a, rm) + without(b, rm),
    decreases b.len(),
{
    if b.len() == 0 {
        assert(a + b == a);
        assert(without(a, rm) + without(b, rm) == without(a, rm));
    } else {
        lemma_without_concat(a, b.drop_last(), rm);
        assert((a + b).drop_last() == a + b.drop_last());
        assert((a + b).last() == b.last());
        assert((without(a, rm) + without(b.drop_last(), rm)).push(b.last()) == without(a, rm)
            + without(b.drop_last(), rm).push(b.last()));
    }
}

/// The tokens of `list` that `rm` names, in their order.
pub open spec fn only(list: Seq<Token>, rm: Seq<Token>) -> Seq<Token>
    decreases list.len(),
{
    if list.len() == 0 {
        list
    } else {
        let front = only(list.drop_last(), rm);
        if rm.contains(list.last()) {
            front.push(list.last())
        } else {
            front
        }
    }
}

/// Removing by a list that names, among the tokens at hand, exactly those
/// that `rm` does not name leaves the tokens that `rm` names.
proof fn lemma_without_complement(list: Seq<Token>, other: Seq<Token>, rm: Seq<Token>)
    requires
        forall|i: int| 0 <= i < list.len() ==> other.contains(list[i]) == !rm.contains(list[i]),
    ensures
        without(list, other) == only(list, rm),
    decreases list.len(),
{
    if list.len() > 0 {
        let front = list.drop_last();
        assert forall|i: int| 0 <= i < front.len() implies other.contains(front[i])
            == !rm.contains(front[i]) by {
            assert(front[i] == list[i]);
        }
        lemma_without_complement(front, other, rm);
        assert(list[list.len() - 1] == list.last());
    }
}

/// The tokens of `add` that `base` lacks, each once, in the order in which
/// `add` first names them: what a merge appends.
pub open spec fn fresh(base: Seq<Token>, add: Seq<Token>) -> Seq<Token>
    decreases add.len(),
{
    if add.len() == 0 {
        Seq::empty()
    } else {
        let sofar = fresh(base, add.drop_last());
        if base.contains(add.last()) || sofar.contains(add.last()) {
            sofar
        } else {
            sofar.push(add.last())
        }
    }
}

/// A merge keeps what it starts from as a prefix and appends the fresh tokens.
pub proof fn lemma_with_missing_appends(base: Seq<Token>, add: Seq<Token>)
    ensures
        with_missing(base, add) == base + fresh(base, add),
    decreases add.len(),
{
    if add.len() > 0 {
        let x = add.last();
        let f = fresh(base, add.drop_last());
        lemma_with_missing_appends(base, add.drop_last());
        lemma_concat_holds(base, f, x);
        assert((base + f).push(x) == base + f.push(x));
    } else {
        assert(base + Seq::<Token>::empty() == base);
    }
}

/// Starting from more, a merge appends the same fresh tokens but for those
/// that the extra part already holds.
proof fn lemma_fresh_after_more(base: Seq<Token>, more: Seq<Token>, add: Seq<Token>)
    ensures
        fresh(base + more, add) == without(fresh(base, add), more),
    decreases add.len(),
{
    if add.len() > 0 {
        let x = add.last();
        let f = fresh(base, add.drop_last());
        lemma_fresh_after_more(base, more, add.drop_last());
        lemma_concat_holds(base, more, x);
        lemma_without_holds(f, more, x);
        assert(f.push(x).drop_last() == f);
    }
}

/// Whether `list` names at `i` a token of `rm` and at the later place `j` a
/// token that `rm` does not hold.
pub open spec fn out_of_order(list: Seq<Token>, rm: Seq<Token>, i: int, j: int) -> bool {
    0 <= i < j < list.len() && rm.contains(list[i]) && !rm.contains(list[j])
}

/// Whether in `list` every token that `rm` names stands behind every token
/// that it does not name.
pub open spec fn removals_last(list: Seq<Token>, rm: Seq<Token>) -> bool {
    forall|i: int, j: int| !#[trigger] out_of_order(list, rm, i, j)
}

/// `only` leaves tokens that the list names.
proof fn lemma_only_leaves_named(list: Seq<Token>, rm: Seq<Token>)
    ensures
        forall|i: int| 0 <= i < only(list, rm).len() ==> rm.contains(only(list, rm)[i]),
    decreases list.len(),
{
    if list.len() > 0 {
        let front = only(list.drop_last(), rm);
        lemma_only_leaves_named(list.drop_last(), rm);
        assert forall|i: int| 0 <= i < only(list, rm).len() implies rm.contains(
            only(list, rm)[i],
        ) by {
            if i < front.len() {
                assert(only(list, rm)[i] == front[i]);
            }
        }
    }
}

/// A list that is its unnamed tokens followed by its named ones has the
/// named ones last.
proof fn lemma_partition_ordered(list: Seq<Token>, rm: Seq<Token>)
    requires
        without(list, rm) + only(list, rm) == list,
    ensures
        removals_last(list, rm),
{
    let n = without(list, rm);
    let r = only(list, rm);
    lemma_without_leaves_strangers(list, rm);
    lemma_only_leaves_named(list, rm);
    assert forall|i: int, j: int| !#[trigger] out_of_order(list, rm, i, j) by {
        if out_of_order(list, rm, i, j) {
            if i < n.len() {
                assert((n + r)[i] == n[i]);
            } else {
                assert((n + r)[j] == r[j - n.len()]);
            }
        }
    }
}

/// A list with the named tokens last is its unnamed tokens followed by its
/// named ones.
proof fn lemma_ordered_partition(list: Seq<Token>, rm: Seq<Token>)
    requires
        removals_last(list, rm),
    ensures
        without(list, rm) + only(list, rm) == list,
    decreases list.len(),
{
    if list.len() > 0 {
        let front = list.drop_last();
        let x = list.last();
        let last = list.len() - 1;
        assert(list[last] == x);
        assert(front.push(x) == list);
        if rm.contains(x) {
            assert forall|i: int, j: int| !#[trigger] out_of_order(front, rm, i, j) by {
                assert(!out_of_order(list, rm, i, j));
                if 0 <= i < j < front.len() {
                    assert(front[i] == list[i] && front[j] == list[j]);
                }
            }
            lemma_ordered_partition(front, rm);
            let n = without(front, rm);
            let r = only(front, rm);
            assert(n + r.push(x) == (n + r).push(x));
        } else {
            assert forall|i: int| 0 <= i < front.len() implies !rm.contains(front[i]) by {
                assert(!out_of_order(list, rm, i, last));
                assert(front[i] == list[i]);
            }
            lemma_without_strangers(front, rm);
            lemma_only_strangers(front, rm);
            assert(front.push(x) + Seq::<Token>::empty() == list);
        }
    } else {
        assert(without(list, rm) + only(list, rm) == list);
    }
}

/// `only` leaves nothing of a list of which `rm` names no token.
proof fn lemma_only_strangers(s: Seq<Token>, rm: Seq<Token>)
    requires
        forall|i: int| 0 <= i < s.len() ==> !rm.contains(s[i]),
    ensures
        only(s, rm) == Seq::<Token>::empty(),
    decreases s.len(),
{
    if s.len() > 0 {
        let front = s.drop_last();
        assert forall|i: int| 0 <= i < front.len() implies !rm.contains(front[i]) by {
            assert(front[i] == s[i]);
        }
        lemma_only_strangers(front, rm);
        assert(!rm.contains(s[s.len() - 1]));
    }
}

/// What a second merge gives: the kept tokens, then the fresh tokens that
/// the removal list does not name, then the fresh tokens that it names.
proof fn lemma_second_merge(base: Seq<Token>, rm: Seq<Token>, add: Seq<Token>)
    ensures
        merge_flags(base, rm, add) == without(base, rm) + fresh(without(base, rm), add),
        merge_flags(merge_flags(base, rm, add), rm, add) == without(base, rm) + (without(
            fresh(without(base, rm), add),
            rm,
        ) + only(fresh(without(base, rm), add), rm)),
{
    let kept = without(base, rm);
    let app = fresh(kept, add);
    let once = merge_flags(base, rm, add);
    let n = without(app, rm);
    lemma_with_missing_appends(kept, add);
    lemma_without_leaves_strangers(base, rm);
    lemma_without_strangers(kept, rm);
    lemma_without_concat(kept, app, rm);
    assert(without(once, rm) == kept + n);
    lemma_with_missing_appends(kept + n, add);
    lemma_fresh_after_more(kept, n, add);
    assert forall|i: int| 0 <= i < app.len() implies n.contains(app[i]) == !rm.contains(
        app[i],
    ) by {
        lemma_without_holds(app, rm, app[i]);
    }
    lemma_without_complement(app, n, rm);
    assert((kept + n) + only(app, rm) == kept + (n + only(app, rm)));
}

/// Two lists behind the same prefix are equal where the whole lists are.
proof fn lemma_same_prefix(a: Seq<Token>, x: Seq<Token>, y: Seq<Token>)
    requires
        a + x == a + y,
    ensures
        x == y,
{
    assert(x.len() == (a + x).len() - a.len());
    assert(y.len() == (a + y).len() - a.len());
    assert forall|i: int| 0 <= i < x.len() implies x[i] == y[i] by {
        assert((a + x)[a.len() + i] == x[i]);
        assert((a + y)[a.len() + i] == y[i]);
    }
    assert(x =~= y);
}

/// Behind a prefix that holds no named token, a list has the named tokens
/// last exactly if the whole has.
proof fn lemma_ordered_behind_prefix(a: Seq<Token>, x: Seq<Token>, rm: Seq<Token>)
    requires
        forall|i: int| 0 <= i < a.len() ==> !rm.contains(a[i]),
    ensures
        removals_last(a + x, rm) <==> removals_last(x, rm),
{
    let whole = a + x;
    if removals_last(whole, rm) {
        assert forall|i: int, j: int| !#[trigger] out_of_order(x, rm, i, j) by {
            if 0 <= i < j < x.len() {
                assert(!out_of_order(whole, rm, a.len() + i, a.len() + j));
                assert(whole[a.len() + i] == x[i]);
                assert(whole[a.len() + j] == x[j]);
            }
        }
    }
    if removals_last(x, rm) {
        assert forall|i: int, j: int| !#[trigger] out_of_order(whole, rm, i, j) by {
            if 0 <= i < j < whole.len() {
                if i < a.len() {
                    assert(whole[i] == a[i]);
                } else {
                    assert(!out_of_order(x, rm, i - a.len(), j - a.len()));
                    assert(whole[i] == x[i - a.len()]);
                    assert(whole[j] == x[j - a.len()]);
                }
            }
        }
    }
}

/// Merging the same removals and additions a second time changes a category
/// exactly where, after the first merge, a token that the removal list names
/// stands before one that it does not name: the second merge moves the named
/// tokens behind the others.
pub proof fn law_merge_twice(base: Seq<Token>, rm: Seq<Token>, add: Seq<Token>)
    ensures
        merge_flags(merge_flags(base, rm, add), rm, add) == merge_flags(base, rm, add)
            <==> removals_last(merge_flags(base, rm, add), rm),
{
    let kept = without(base, rm);
    let app = fresh(kept, add);
    let once = merge_flags(base, rm, add);
    let twice = merge_flags(once, rm, add);
    let parts = without(app, rm) + only(app, rm);
    lemma_second_merge(base, rm, add);
    lemma_without_leaves_strangers(base, rm);
    lemma_ordered_behind_prefix(kept, app, rm);
    if twice == once {
        lemma_same_prefix(kept, parts, app);
        lemma_partition_ordered(app, rm);
    }
    if removals_last(once, rm) {
        lemma_ordered_partition(app, rm);
    }
}

/// Every fresh token is one that the addition list names.
proof fn lemma_fresh_from_add(base: Seq<Token>, add: Seq<Token>)
    ensures
        forall|i: int| 0 <= i < fresh(base, add).len() ==> add.contains(fresh(base, add)[i]),
    decreases add.len(),
{
    if add.len() > 0 {
        let front = fresh(base, add.drop_last());
        lemma_fresh_from_add(base, add.drop_last());
        assert forall|i: int| 0 <= i < fresh(base, add).len() implies add.contains(
            fresh(base, add)[i],
        ) by {
            lemma_last_holds(add, fresh(base, add)[i]);
            if i < front.len() {
                assert(fresh(base, add)[i] == front[i]);
            }
        }
    }
}

/// Where the removal list names none of the added tokens, or names them
/// all, a second merge changes nothing.
pub proof fn law_merge_twice_apart_or_within(base: Seq<Token>, rm: Seq<Token>, add: Seq<Token>)
    requires
        (forall|t: Token| add.contains(t) ==> !rm.contains(t)) || (forall|t: Token|
            add.contains(t) ==> rm.contains(t)),
    ensures
        merge_flags(merge_flags(base, rm, add), rm, add) == merge_flags(base, rm, add),
{
    let kept = without(base, rm);
    let app = fresh(kept, add);
    let once = merge_flags(base, rm, add);
    lemma_with_missing_appends(kept, add);
    lemma_without_leaves_strangers(base, rm);
    lemma_fresh_from_add(kept, add);
    assert forall|i: int, j: int| !#[trigger] out_of_order(once, rm, i, j) by {
        if 0 <= i < j < once.len() {
            if i < kept.len() {
                assert(once[i] == kept[i]);
            } else {
                assert(once[i] == app[i - kept.len()]);
                assert(once[j] == app[j - kept.len()]);
            }
        }
    }
    law_merge_twice(base, rm, add);
}

/// Applying the same change twice gives what applying it once gives, for
/// every configuration and change in which, per category, the first merge
/// left the tokens that the removal list names behind the others.
pub proof fn law_modify_twice(p: ParamsView, t: TransformView)
    requires
        removals_last(merged(p, t).rust_flags, t.rm_rust_flags),
        removals_last(merged(p, t).clippy_flags, t.rm_clippy_flags),
    ensures
        merged(merged(p, t), t) == merged(p, t),
{
    law_merge_twice(p.rust_flags, t.rm_rust_flags, t.add_rust_flags);
    law_merge_twice(p.clippy_flags, t.rm_clippy_flags, t.add_clippy_flags);
}

} // verus!
