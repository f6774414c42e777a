//! Facts about sequences, their filters and their multisets that the
//! selection and counting loops rely on.

use vstd::prelude::*;
use vstd::seq_lib::*;

verus! {

broadcast use vstd::seq_lib::group_seq_properties, vstd::multiset::group_multiset_axioms;

/// Inserting an element anywhere adds exactly that element to the multiset.
pub proof fn lemma_insert_to_multiset<A>(s: Seq<A>, i: int, x: A)
    requires
        0 <= i <= s.len(),
    ensures
        s.insert(i, x).to_multiset() =~= s.to_multiset().insert(x),
{
    let front = s.subrange(0, i);
    let back = s.subrange(i, s.len() as int);
    assert(s =~= front + back);
    assert(s.insert(i, x) =~= front.push(x) + back);
    lemma_multiset_commutative(front.push(x), back);
    lemma_multiset_commutative(front, back);
    front.to_multiset_ensures();
}

/// Filtering a sequence with one more element at its end.
pub proof fn lemma_filter_push<A>(s: Seq<A>, x: A, pred: spec_fn(A) -> bool)
    ensures
        s.push(x).filter(pred) == (if pred(x) {
            s.filter(pred).push(x)
        } else {
            s.filter(pred)
        }),
{
    reveal_with_fuel(Seq::filter, 1);
    assert(s.push(x).drop_last() =~= s);
}

/// Filtering a sequence with one more element at its front, seen as
/// multisets.
pub proof fn lemma_filter_prepend_to_multiset<A>(s: Seq<A>, x: A, pred: spec_fn(A) -> bool)
    ensures
        (seq![x] + s).filter(pred).to_multiset() =~= (if pred(x) {
            s.filter(pred).to_multiset().insert(x)
        } else {
            s.filter(pred).to_multiset()
        }),
{
    Seq::filter_distributes_over_add(seq![x], s, pred);
    lemma_filter_push(Seq::<A>::empty(), x, pred);
    reveal_with_fuel(Seq::filter, 1);
    assert(seq![x] =~= Seq::<A>::empty().push(x));
    lemma_multiset_commutative(seq![x].filter(pred), s.filter(pred));
    Seq::<A>::empty().to_multiset_ensures();
}

/// Mapping a sequence with one more element at its end.
pub proof fn lemma_map_push<A, B>(s: Seq<A>, x: A, f: spec_fn(A) -> B)
    ensures
        s.push(x).map_values(f) == s.map_values(f).push(f(x)),
{
    assert(s.push(x).map_values(f) =~= s.map_values(f).push(f(x)));
}

} // verus!
