use vstd::prelude::*;

verus! {

/// Filtering a prefix one element longer adds that element exactly when it passes the filter.
pub proof fn lemma_filter_take_step<A>(s: Seq<A>, p: spec_fn(A) -> bool, i: int)
    requires
        0 <= i < s.len(),
    ensures
        s.take(i + 1).filter(p) == (if p(s[i]) {
            s.take(i).filter(p).push(s[i])
        } else {
            s.take(i).filter(p)
        }),
{
    reveal(Seq::filter);
    assert(s.take(i + 1).drop_last() =~= s.take(i));
    assert(s.take(i + 1).last() == s[i]);
}

/// A whole sequence is its own longest prefix.
pub proof fn lemma_take_full<A>(s: Seq<A>)
    ensures
        s.take(s.len() as int) == s,
{
    assert(s.take(s.len() as int) =~= s);
}

/// A filter that every element passes keeps the whole sequence.
pub proof fn lemma_filter_keeps_all<A>(s: Seq<A>, p: spec_fn(A) -> bool)
    requires
        forall|i: int| 0 <= i < s.len() ==> p(#[trigger] s[i]),
    ensures
        s.filter(p) == s,
    decreases s.len(),
{
    reveal(Seq::filter);
    if s.len() > 0 {
        let rest = s.drop_last();
        assert forall|i: int| 0 <= i < rest.len() implies p(#[trigger] rest[i]) by {
            assert(rest[i] == s[i]);
        }
        lemma_filter_keeps_all(rest, p);
        assert(p(s[s.len() - 1]));
        assert(rest.push(s.last()) =~= s);
    }
}

} // verus!

verus! {

/// Appending an element that is not yet present keeps a sequence free of duplicates.
pub proof fn lemma_push_no_duplicates<A>(s: Seq<A>, x: A)
    requires
        s.no_duplicates(),
        !s.contains(x),
    ensures
        s.push(x).no_duplicates(),
        forall|y: A| s.push(x).contains(y) <==> (s.contains(y) || y == x),
{
    let t = s.push(x);
    assert forall|i: int, j: int| 0 <= i < t.len() && 0 <= j < t.len() && i != j implies t[i] != t[j] by {
        if i == s.len() as int {
            assert(s.contains(t[j]));
        } else if j == s.len() as int {
            assert(s.contains(t[i]));
        }
    }
    assert forall|y: A| t.contains(y) <==> (s.contains(y) || y == x) by {
        if t.contains(y) {
            let k = choose|k: int| 0 <= k < t.len() && t[k] == y;
            if k < s.len() {
                assert(s[k] == y);
            }
        }
        if s.contains(y) {
            let k = choose|k: int| 0 <= k < s.len() && s[k] == y;
            assert(t[k] == y);
        }
        if y == x {
            assert(t[s.len() as int] == y);
        }
    }
}

} // verus!

verus! {

/// An element is in a sequence with `x` appended exactly when it is `x` or was there before.
pub proof fn lemma_push_contains<A>(s: Seq<A>, x: A, y: A)
    ensures
        s.push(x).contains(y) <==> (s.contains(y) || y == x),
{
    if s.push(x).contains(y) {
        let k = choose|k: int| 0 <= k < s.push(x).len() && s.push(x)[k] == y;
        if k < s.len() {
            assert(s[k] == y);
        }
    }
    if s.contains(y) {
        let k = choose|k: int| 0 <= k < s.len() && s[k] == y;
        assert(s.push(x)[k] == y);
    }
    if y == x {
        assert(s.push(x)[s.len() as int] == y);
    }
}

} // verus!

verus! {

/// Two different positions of a filtered sequence come from two different positions of
/// the original one.
pub proof fn lemma_filter_index_origin<A>(s: Seq<A>, p: spec_fn(A) -> bool, a: int, b: int)
    requires
        0 <= a < s.filter(p).len(),
        0 <= b < s.filter(p).len(),
        a != b,
    ensures
        exists|i: int, j: int|
            0 <= i < s.len() && 0 <= j < s.len() && i != j && s[i] == s.filter(p)[a] && s[j] == s.filter(
                p,
            )[b],
    decreases s.len(),
{
    reveal(Seq::filter);
    let f = s.filter(p);
    let rest = s.drop_last();
    let fr = rest.filter(p);
    if p(s.last()) {
        assert(f == fr.push(s.last()));
        if a < fr.len() && b < fr.len() {
            lemma_filter_index_origin(rest, p, a, b);
            let (i, j) = choose|i: int, j: int|
                0 <= i < rest.len() && 0 <= j < rest.len() && i != j && rest[i] == fr[a] && rest[j] == fr[b];
            assert(s[i] == f[a] && s[j] == f[b]);
        } else if a < fr.len() {
            assert(fr.contains(fr[a]));
            rest.lemma_filter_contains_rev(p, fr[a]);
            let i = choose|i: int| 0 <= i < rest.len() && rest[i] == fr[a];
            let j = s.len() - 1;
            assert(s[i] == f[a] && s[j] == f[b]);
        } else {
            assert(fr.contains(fr[b]));
            rest.lemma_filter_contains_rev(p, fr[b]);
            let j = choose|j: int| 0 <= j < rest.len() && rest[j] == fr[b];
            let i = s.len() - 1;
            assert(s[i] == f[a] && s[j] == f[b]);
        }
    } else {
        assert(f == fr);
        lemma_filter_index_origin(rest, p, a, b);
        let (i, j) = choose|i: int, j: int|
            0 <= i < rest.len() && 0 <= j < rest.len() && i != j && rest[i] == fr[a] && rest[j] == fr[b];
        assert(s[i] == f[a] && s[j] == f[b]);
    }
}

} // verus!

verus! {

/// A property of every element of a sequence holds of every element of any filtering of it.
pub proof fn lemma_filter_preserves<A>(s: Seq<A>, p: spec_fn(A) -> bool, q: spec_fn(A) -> bool)
    requires
        forall|i: int| 0 <= i < s.len() ==> q(#[trigger] s[i]),
    ensures
        forall|i: int| 0 <= i < s.filter(p).len() ==> q(#[trigger] s.filter(p)[i]),
{
    assert forall|i: int| 0 <= i < s.filter(p).len() implies q(#[trigger] s.filter(p)[i]) by {
        assert(s.filter(p).contains(s.filter(p)[i]));
        s.lemma_filter_contains_rev(p, s.filter(p)[i]);
        let j = choose|j: int| 0 <= j < s.len() && s[j] == s.filter(p)[i];
        assert(q(s[j]));
    }
}

} // verus!
