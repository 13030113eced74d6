//! Lemmas about deep views of vectors and sequences.
//!
//! The pipeline's loops consume a vector from the front while building a
//! converted vector at the back; these lemmas carry the deep view of both
//! across one loop step.

use vstd::prelude::*;

verus! {

/// The deep view of a sequence of viewable values, elementwise.
pub open spec fn seq_deep_view<T: DeepView>(s: Seq<T>) -> Seq<T::V> {
    Seq::new(s.len(), |i: int| s[i].deep_view())
}

/// A vector's deep view is the elementwise deep view of its view.
pub broadcast proof fn lemma_vec_deep_view<T: DeepView>(v: Vec<T>)
    ensures
        #[trigger] v.deep_view() == seq_deep_view(v@),
{
    assert(v.deep_view() =~= seq_deep_view(v@));
}

/// Pushing at the back commutes with the deep view.
pub proof fn lemma_seq_deep_view_push<T: DeepView>(s: Seq<T>, x: T)
    ensures
        seq_deep_view(s.push(x)) == seq_deep_view(s).push(x.deep_view()),
{
    assert(seq_deep_view(s.push(x)) =~= seq_deep_view(s).push(x.deep_view()));
}

/// Concatenation commutes with the deep view.
pub proof fn lemma_seq_deep_view_add<T: DeepView>(a: Seq<T>, b: Seq<T>)
    ensures
        seq_deep_view(a + b) == seq_deep_view(a) + seq_deep_view(b),
{
    assert forall|i: int| 0 <= i < a.len() + b.len() implies seq_deep_view(a + b)[i]
        == (seq_deep_view(a) + seq_deep_view(b))[i] by {
        if i < a.len() {
            assert((a + b)[i] == a[i]);
        } else {
            assert((a + b)[i] == b[i - a.len()]);
        }
    }
    assert(seq_deep_view(a + b) =~= seq_deep_view(a) + seq_deep_view(b));
}

/// Taking the front element off a vector whose deep view is the suffix
/// `orig.skip(k)`: the element models `orig[k]` and the rest models the
/// suffix one further along.
pub proof fn lemma_remove_front_step<T: DeepView>(bv: Seq<T>, av: Seq<T>, orig: Seq<T::V>, k: int)
    requires
        0 <= k <= orig.len(),
        bv.len() > 0,
        seq_deep_view(bv) == orig.skip(k),
        av == bv.remove(0),
    ensures
        k < orig.len(),
        bv.len() == orig.len() - k,
        bv[0].deep_view() == orig[k],
        seq_deep_view(av) == orig.skip(k + 1),
{
    assert(seq_deep_view(bv).len() == bv.len());
    assert(orig.skip(k).len() == orig.len() - k);
    assert(seq_deep_view(bv)[0] == bv[0].deep_view());
    assert(orig.skip(k)[0] == orig[k]);
    assert forall|i: int| 0 <= i < av.len() implies seq_deep_view(av)[i] == orig.skip(k + 1)[i] by {
        assert(av[i] == bv[i + 1]);
        assert(seq_deep_view(bv)[i + 1] == bv[i + 1].deep_view());
        assert(orig.skip(k)[i + 1] == orig[k + i + 1]);
        assert(orig.skip(k + 1)[i] == orig[k + i + 1]);
    }
    assert(seq_deep_view(av) =~= orig.skip(k + 1));
}

/// Mapping a function over a sequence commutes with pushing at the back.
pub proof fn lemma_map_values_push<A, B>(s: Seq<A>, x: A, f: spec_fn(A) -> B)
    ensures
        s.push(x).map_values(f) == s.map_values(f).push(f(x)),
{
    assert(s.push(x).map_values(f) =~= s.map_values(f).push(f(x)));
}

/// Extending a prefix by one element extends its filtered image by that
/// element exactly when the element passes the predicate.
pub proof fn lemma_filter_take_succ<V>(orig: Seq<V>, p: spec_fn(V) -> bool, k: int)
    requires
        0 <= k < orig.len(),
    ensures
        p(orig[k]) ==> orig.take(k + 1).filter(p) == orig.take(k).filter(p).push(orig[k]),
        !p(orig[k]) ==> orig.take(k + 1).filter(p) == orig.take(k).filter(p),
{
    reveal(Seq::filter);
    let t = orig.take(k + 1);
    assert(t.len() == k + 1);
    assert(t.drop_last() =~= orig.take(k));
    assert(t.last() == orig[k]);
    assert(t.filter(p) == if p(t.last()) {
        t.drop_last().filter(p).push(t.last())
    } else {
        t.drop_last().filter(p)
    });
}

/// A prefix of the whole length is the sequence itself.
pub proof fn lemma_take_all<V>(s: Seq<V>, k: int)
    requires
        k == s.len(),
    ensures
        s.take(k) == s,
{
    assert(s.take(k) =~= s);
}

} // verus!
