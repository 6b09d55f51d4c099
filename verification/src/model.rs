//! Views of sequences, element by element.

use vstd::prelude::*;

verus! {

/// The models of the elements of a sequence, in order.
pub open spec fn models<T: View>(s: Seq<T>) -> Seq<T::V> {
    Seq::new(s.len(), |i: int| s[i]@)
}

pub broadcast proof fn lemma_models_len<T: View>(s: Seq<T>)
    ensures
        #[trigger] models(s).len() == s.len(),
{
}

pub broadcast proof fn lemma_models_index<T: View>(s: Seq<T>, i: int)
    requires
        0 <= i < s.len(),
    ensures
        #[trigger] models(s)[i] == s[i]@,
{
}

pub broadcast proof fn lemma_models_push<T: View>(s: Seq<T>, x: T)
    ensures
        #[trigger] models(s.push(x)) == models(s).push(x@),
{
    assert(models(s.push(x)) =~= models(s).push(x@));
}

pub broadcast proof fn lemma_models_update<T: View>(s: Seq<T>, i: int, x: T)
    requires
        0 <= i < s.len(),
    ensures
        #[trigger] models(s.update(i, x)) == models(s).update(i, x@),
{
    assert(models(s.update(i, x)) =~= models(s).update(i, x@));
}

pub broadcast proof fn lemma_models_subrange<T: View>(s: Seq<T>, from: int, to: int)
    requires
        0 <= from <= to <= s.len(),
    ensures
        #[trigger] models(s.subrange(from, to)) == models(s).subrange(from, to),
{
    assert(models(s.subrange(from, to)) =~= models(s).subrange(from, to));
}

pub broadcast proof fn lemma_models_empty<T: View>()
    ensures
        #[trigger] models(Seq::<T>::empty()) == Seq::<T::V>::empty(),
{
    assert(models(Seq::<T>::empty()) =~= Seq::<T::V>::empty());
}

pub broadcast group group_models {
    lemma_models_len,
    lemma_models_index,
    lemma_models_push,
    lemma_models_update,
    lemma_models_subrange,
    lemma_models_empty,
}

} // verus!
