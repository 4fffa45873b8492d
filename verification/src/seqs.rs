//! Small general lemmas about sequences, shared by the scanner proofs.

use vstd::prelude::*;

verus! {

/// One step of a left-to-right filter: filtering a prefix one element longer
/// appends that element exactly when it satisfies the predicate.
pub proof fn lemma_filter_take_step<A>(s: Seq<A>, pred: spec_fn(A) -> bool, i: int)
    requires
        0 <= i < s.len(),
    ensures
        s.take(i + 1).filter(pred) == (if pred(s[i]) {
            s.take(i as int).filter(pred).push(s[i])
        } else {
            s.take(i as int).filter(pred)
        }),
{
    reveal_with_fuel(Seq::filter, 3);
    let single = seq![s[i]];
    assert(single.drop_last() =~= Seq::<A>::empty());
    assert(single.filter(pred) == (if pred(s[i]) {
        single
    } else {
        Seq::<A>::empty()
    }));
    Seq::filter_distributes_over_add(s.take(i as int), single, pred);
    assert(s.take(i + 1) =~= s.take(i as int) + single);
    if pred(s[i]) {
        assert(s.take(i as int).filter(pred) + single =~= s.take(i as int).filter(pred).push(
            s[i],
        ));
    } else {
        assert(s.take(i as int).filter(pred) + Seq::<A>::empty() =~= s.take(i as int).filter(
            pred,
        ));
    }
}

/// Filtering keeps a sequence free of duplicates.
pub proof fn lemma_filter_keeps_no_duplicates<A>(s: Seq<A>, pred: spec_fn(A) -> bool)
    requires
        s.no_duplicates(),
    ensures
        s.filter(pred).no_duplicates(),
    decreases s.len(),
{
    reveal_with_fuel(Seq::filter, 2);
    if s.len() > 0 {
        let prefix = s.drop_last();
        assert(prefix.no_duplicates());
        lemma_filter_keeps_no_duplicates(prefix, pred);
        if pred(s.last()) {
            if prefix.filter(pred).contains(s.last()) {
                lemma_filter_membership(prefix, pred, s.last());
                let k = choose|k: int| 0 <= k < prefix.len() && prefix[k] == s.last();
                assert(s[k] == s[s.len() - 1]);
                assert(false);
            }
            let out = prefix.filter(pred).push(s.last());
            assert(s.filter(pred) == out);
            assert forall|i: int, j: int|
                0 <= i < out.len() && 0 <= j < out.len() && i != j implies out[i] != out[j] by {
                if i < out.len() - 1 && j < out.len() - 1 {
                    assert(out[i] == prefix.filter(pred)[i]);
                    assert(out[j] == prefix.filter(pred)[j]);
                } else if j == out.len() - 1 {
                    assert(out[i] == prefix.filter(pred)[i]);
                    assert(prefix.filter(pred).contains(prefix.filter(pred)[i]));
                } else {
                    assert(out[j] == prefix.filter(pred)[j]);
                    assert(prefix.filter(pred).contains(prefix.filter(pred)[j]));
                }
            }
        } else {
            assert(s.filter(pred) == prefix.filter(pred));
        }
    }
}

/// An element of a filtered sequence is an element of the original that
/// satisfies the predicate, and conversely.
pub proof fn lemma_filter_membership<A>(s: Seq<A>, pred: spec_fn(A) -> bool, x: A)
    ensures
        s.filter(pred).contains(x) <==> (s.contains(x) && pred(x)),
    decreases s.len(),
{
    reveal_with_fuel(Seq::filter, 2);
    if s.len() > 0 {
        let prefix = s.drop_last();
        lemma_filter_membership(prefix, pred, x);
        if s.filter(pred).contains(x) {
            if pred(s.last()) {
                let out = prefix.filter(pred).push(s.last());
                assert(s.filter(pred) == out);
                let j = choose|j: int| 0 <= j < out.len() && out[j] == x;
                if j == out.len() - 1 {
                    assert(s[s.len() - 1] == x);
                } else {
                    assert(prefix.filter(pred).contains(x));
                    let k = choose|k: int| 0 <= k < prefix.len() && prefix[k] == x;
                    assert(s[k] == x);
                }
            } else {
                assert(prefix.filter(pred).contains(x));
                let k = choose|k: int| 0 <= k < prefix.len() && prefix[k] == x;
                assert(s[k] == x);
            }
        }
        if s.contains(x) && pred(x) {
            let i = choose|i: int| 0 <= i < s.len() && s[i] == x;
            s.lemma_filter_contains(pred, i);
        }
    }
}

} // verus!
