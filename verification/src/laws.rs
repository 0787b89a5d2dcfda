//! Laws that both stack types obey, stated over the sequence model their
//! contracts use: a push appends to the view, a pop returns the last element
//! of the view and drops it.

use vstd::prelude::*;

verus! {

/// The view of a stack with contents `s` after the elements of `vs` are
/// pushed onto it, first element of `vs` first.
pub open spec fn after_pushes<T>(s: Seq<T>, vs: Seq<T>) -> Seq<T>
    decreases vs.len(),
{
    if vs.len() == 0 {
        s
    } else {
        after_pushes(s.push(vs[0]), vs.skip(1))
    }
}

/// The view of a stack with contents `s` after `j` pops.
pub open spec fn after_pops<T>(s: Seq<T>, j: int) -> Seq<T>
    decreases j,
{
    if j <= 0 {
        s
    } else {
        after_pops(s, j - 1).drop_last()
    }
}

/// Pushing the elements of `vs` appends `vs` to the contents.
pub proof fn lemma_pushes_append<T>(s: Seq<T>, vs: Seq<T>)
    ensures
        after_pushes(s, vs) == s + vs,
    decreases vs.len(),
{
    if vs.len() == 0 {
        assert(after_pushes(s, vs) =~= s + vs);
    } else {
        lemma_pushes_append(s.push(vs[0]), vs.skip(1));
        assert(s.push(vs[0]) + vs.skip(1) =~= s + vs);
    }
}

/// `j` pops leave exactly the first `len - j` elements in place.
pub proof fn lemma_pops_take<T>(s: Seq<T>, j: int)
    requires
        0 <= j <= s.len(),
    ensures
        after_pops(s, j) == s.take(s.len() - j),
    decreases j,
{
    if j == 0 {
        assert(after_pops(s, j) =~= s.take(s.len() - j));
    } else {
        lemma_pops_take(s, j - 1);
        assert(s.take(s.len() - (j - 1)).drop_last() =~= s.take(s.len() - j));
    }
}

/// LIFO law: push `vs` onto a stack holding `s`, then pop repeatedly; the
/// `i`-th pop (counting from zero) returns the elements of `vs` from the last
/// back to the first, and finds the stack still `s.len() + vs.len() - i`
/// elements deep.
pub proof fn lemma_lifo<T>(s: Seq<T>, vs: Seq<T>, i: int)
    requires
        0 <= i < vs.len(),
    ensures
        after_pops(after_pushes(s, vs), i).len() == s.len() + vs.len() - i,
        after_pops(after_pushes(s, vs), i).last() == vs[vs.len() - 1 - i],
{
    lemma_pushes_append(s, vs);
    lemma_pops_take(s + vs, i);
}

/// Length law: starting from an empty stack, `k` pushes followed by `j <= k`
/// pops leave exactly `k - j` elements.
pub proof fn lemma_length<T>(vs: Seq<T>, j: int)
    requires
        0 <= j <= vs.len(),
    ensures
        after_pops(after_pushes(Seq::<T>::empty(), vs), j).len() == vs.len() - j,
{
    lemma_pushes_append(Seq::<T>::empty(), vs);
    assert(Seq::<T>::empty() + vs =~= vs);
    lemma_pops_take(vs, j);
}

} // verus!
