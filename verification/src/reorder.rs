//! Lemmas on sequences that hold the same elements in another order.

use vstd::prelude::*;
use vstd::seq_lib::{group_to_multiset_ensures, lemma_multiset_commutative};

verus! {

/// What `filter_map` keeps of a single element.
pub open spec fn kept<A, B>(x: A, f: spec_fn(A) -> Option<B>) -> Seq<B> {
    match f(x) {
        Some(y) => seq![y],
        None => Seq::empty(),
    }
}

/// `filter_map` goes through a concatenation part by part.
pub proof fn lemma_filter_map_concat<A, B>(a: Seq<A>, b: Seq<A>, f: spec_fn(A) -> Option<B>)
    ensures
        (a + b).filter_map(f) == a.filter_map(f) + b.filter_map(f),
    decreases b.len(),
{
    if b.len() == 0 {
        assert(a + b =~= a);
        assert(a.filter_map(f) + b.filter_map(f) =~= a.filter_map(f));
    } else {
        let front = b.drop_last();
        lemma_filter_map_concat(a, front, f);
        assert((a + b).drop_last() =~= a + front);
        assert((a + b).last() == b.last());
        assert((a + b).filter_map(f) =~= (a + front).filter_map(f) + kept(b.last(), f));
        assert(b.filter_map(f) =~= front.filter_map(f) + kept(b.last(), f));
        assert((a + b).filter_map(f) =~= a.filter_map(f) + b.filter_map(f));
    }
}

/// `map_values` is a `filter_map` that keeps every element.
pub proof fn lemma_map_is_filter_map<A, B>(a: Seq<A>, g: spec_fn(A) -> B)
    ensures
        a.map_values(g) == a.filter_map(|x: A| Some(g(x))),
    decreases a.len(),
{
    let f = |x: A| Some(g(x));
    if a.len() == 0 {
        assert(a.map_values(g) =~= a.filter_map(f));
    } else {
        lemma_map_is_filter_map(a.drop_last(), g);
        assert(a.map_values(g) =~= a.drop_last().map_values(g) + seq![g(a.last())]);
        assert(a.filter_map(f) =~= a.drop_last().filter_map(f) + seq![g(a.last())]);
    }
}

/// Where two sequences hold the same elements, each as often, what
/// `filter_map` keeps of them holds the same elements, each as often.
pub proof fn lemma_filter_map_reordered<A, B>(a: Seq<A>, b: Seq<A>, f: spec_fn(A) -> Option<B>)
    requires
        a.to_multiset() == b.to_multiset(),
    ensures
        a.filter_map(f).to_multiset() == b.filter_map(f).to_multiset(),
    decreases a.len(),
{
    broadcast use group_to_multiset_ensures;

    if a.len() == 0 {
        a.to_multiset_ensures();
        b.to_multiset_ensures();
        assert(b.len() == 0);
    } else {
        let x = a.last();
        let front = a.drop_last();
        assert(a =~= front.push(x));
        assert(a.to_multiset().count(x) > 0);
        assert(b.contains(x));
        let j = choose|j: int| 0 <= j < b.len() && b[j] == x;
        let rest = b.remove(j);
        assert(front.to_multiset() =~= a.to_multiset().remove(x));
        assert(rest.to_multiset() =~= front.to_multiset());
        lemma_filter_map_reordered(front, rest, f);
        let head = b.take(j);
        let tail = b.skip(j + 1);
        assert(b =~= head + seq![x] + tail);
        assert(rest =~= head + tail);
        lemma_filter_map_concat(head + seq![x], tail, f);
        lemma_filter_map_concat(head, seq![x], f);
        lemma_filter_map_concat(head, tail, f);
        Seq::lemma_filter_map_singleton(x, f);
        let h = head.filter_map(f);
        let t = tail.filter_map(f);
        let k = kept(x, f);
        assert(seq![x].filter_map(f) == k);
        assert(b.filter_map(f) == h + k + t);
        assert(rest.filter_map(f) == h + t);
        assert(a.filter_map(f) =~= front.filter_map(f) + k);
        lemma_multiset_commutative(h + k, t);
        lemma_multiset_commutative(h, k);
        lemma_multiset_commutative(h, t);
        lemma_multiset_commutative(front.filter_map(f), k);
        assert(b.filter_map(f).to_multiset() =~= rest.filter_map(f).to_multiset().add(
            k.to_multiset(),
        ));
    }
}

/// Where two sequences hold the same elements, each as often, their images
/// under `map_values` hold the same elements, each as often.
pub proof fn lemma_map_reordered<A, B>(a: Seq<A>, b: Seq<A>, g: spec_fn(A) -> B)
    requires
        a.to_multiset() == b.to_multiset(),
    ensures
        a.map_values(g).to_multiset() == b.map_values(g).to_multiset(),
{
    lemma_map_is_filter_map(a, g);
    lemma_map_is_filter_map(b, g);
    lemma_filter_map_reordered(a, b, |x: A| Some(g(x)));
}

} // verus!
