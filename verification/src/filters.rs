//! Facts about filtered sequences.

use vstd::prelude::*;

verus! {

/// Nothing is left where every element fails the test.
pub proof fn lemma_filter_none<A>(s: Seq<A>, p: spec_fn(A) -> bool)
    requires
        forall|i: int| 0 <= i < s.len() ==> !p(#[trigger] s[i]),
    ensures
        s.filter(p) == Seq::<A>::empty(),
{
    if s.filter(p).len() > 0 {
        let kept = s.filter(p)[0];
        s.lemma_filter_pred(p, 0);
        s.lemma_filter_contains_rev(p, kept);
    }
}

/// Two sequences keep the same elements where, position by position, either
/// both elements fail or both pass and are equal.
pub proof fn lemma_filter_agree<A>(
    x: Seq<A>,
    y: Seq<A>,
    p: spec_fn(A) -> bool,
    q: spec_fn(A) -> bool,
)
    requires
        x.len() == y.len(),
        forall|i: int| 0 <= i < x.len() ==> p(#[trigger] x[i]) == q(#[trigger] y[i]),
        forall|i: int| 0 <= i < x.len() && p(#[trigger] x[i]) ==> x[i] == #[trigger] y[i],
    ensures
        x.filter(p) == y.filter(q),
    decreases x.len(),
{
    reveal(Seq::filter);
    if x.len() > 0 {
        let a = x.drop_last();
        let b = y.drop_last();
        assert forall|i: int| 0 <= i < a.len() implies p(#[trigger] a[i]) == q(#[trigger] b[i]) by {
            assert(a[i] == x[i] && b[i] == y[i]);
        }
        assert forall|i: int| 0 <= i < a.len() && p(#[trigger] a[i]) implies a[i]
            == #[trigger] b[i] by {
            assert(a[i] == x[i] && b[i] == y[i]);
        }
        lemma_filter_agree(a, b, p, q);
        assert(p(x[x.len() - 1]) == q(y[y.len() - 1]));
    }
}

/// A weaker test keeps at least as many elements.
pub proof fn lemma_filter_weaker<A>(s: Seq<A>, p: spec_fn(A) -> bool, q: spec_fn(A) -> bool)
    requires
        forall|i: int| 0 <= i < s.len() && p(#[trigger] s[i]) ==> q(s[i]),
    ensures
        s.filter(p).len() <= s.filter(q).len(),
    decreases s.len(),
{
    reveal(Seq::filter);
    if s.len() > 0 {
        let init = s.drop_last();
        assert forall|i: int| 0 <= i < init.len() && p(#[trigger] init[i]) implies q(init[i]) by {
            assert(init[i] == s[i]);
        }
        lemma_filter_weaker(init, p, q);
        assert(p(s[s.len() - 1]) ==> q(s[s.len() - 1]));
    }
}

/// A second test splits what the first one keeps.
pub proof fn lemma_filter_split<A>(s: Seq<A>, p: spec_fn(A) -> bool, q: spec_fn(A) -> bool)
    ensures
        s.filter(p).len() == s.filter(|a: A| p(a) && q(a)).len() + s.filter(
            |a: A| p(a) && !q(a),
        ).len(),
    decreases s.len(),
{
    reveal(Seq::filter);
    if s.len() > 0 {
        lemma_filter_split(s.drop_last(), p, q);
    }
}

/// Two tests one after the other keep as many as both at once.
pub proof fn lemma_filter_twice<A>(s: Seq<A>, p: spec_fn(A) -> bool, q: spec_fn(A) -> bool)
    ensures
        s.filter(p).filter(q) == s.filter(|a: A| p(a) && q(a)),
    decreases s.len(),
{
    reveal(Seq::filter);
    if s.len() > 0 {
        let init = s.drop_last();
        lemma_filter_twice(init, p, q);
        if p(s.last()) {
            assert(init.filter(p).push(s.last()).drop_last() =~= init.filter(p));
        }
    }
}

/// A test on mapped elements keeps as many as the composed test on the elements.
pub proof fn lemma_filter_map<A, B>(s: Seq<A>, f: spec_fn(A) -> B, q: spec_fn(B) -> bool)
    ensures
        s.map_values(f).filter(q).len() == s.filter(|a: A| q(f(a))).len(),
    decreases s.len(),
{
    reveal(Seq::filter);
    if s.len() > 0 {
        let init = s.drop_last();
        lemma_filter_map(init, f, q);
        assert(s.map_values(f).drop_last() =~= init.map_values(f));
    }
}

/// The last element stands last where it passes.
pub proof fn lemma_filter_push<A>(s: Seq<A>, a: A, p: spec_fn(A) -> bool)
    ensures
        s.push(a).filter(p) == (if p(a) {
            s.filter(p).push(a)
        } else {
            s.filter(p)
        }),
{
    reveal(Seq::filter);
    assert(s.push(a).drop_last() =~= s);
}

/// A filter that every element passes keeps the sequence as it is.
pub proof fn lemma_filter_keeps_all<A>(s: Seq<A>, p: spec_fn(A) -> bool)
    requires
        forall|i: int| 0 <= i < s.len() ==> p(#[trigger] s[i]),
    ensures
        s.filter(p) == s,
    decreases s.len(),
{
    reveal(Seq::filter);
    if s.len() > 0 {
        lemma_filter_keeps_all(s.drop_last(), p);
        assert(s.drop_last().push(s.last()) =~= s);
    }
}

} // verus!
