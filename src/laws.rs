use vstd::prelude::*;

use crate::list::List;
use crate::ops::{kth_of, last_but_one_of, last_of};

verus! {

/// Building a list from a sequence and reading its elements back gives the
/// sequence, order kept; the empty sequence gives `Nil`.
pub proof fn lemma_view_of_from_seq<E>(s: Seq<E>)
    ensures
        List::<E>::from_seq(s)@ == s,
        s.len() == 0 ==> List::<E>::from_seq(s) == List::<E>::Nil,
    decreases s.len(),
{
    if s.len() > 0 {
        lemma_view_of_from_seq(s.drop_first());
        assert(List::<E>::from_seq(s)@ =~= s);
    }
}

/// A list is determined by its elements: reading a list's elements and
/// building a list from them gives the same list.
pub proof fn lemma_from_seq_of_view<E>(l: List<E>)
    ensures
        List::<E>::from_seq(l@) == l,
    decreases l,
{
    match l {
        List::Nil => {},
        List::Cons(x, xs) => {
            lemma_from_seq_of_view(*xs);
            assert(l@.drop_first() =~= xs@);
        },
    }
}

/// Reversing twice gives back the list, and the empty list is its own
/// reverse.
pub proof fn lemma_reverse_involution<E>(l: List<E>)
    ensures
        l.reversed().reversed() == l,
        List::<E>::Nil.reversed() == List::<E>::Nil,
{
    lemma_view_of_from_seq(l@.reverse());
    assert(l@.reverse().reverse() =~= l@);
    lemma_from_seq_of_view(l);
    assert(Seq::<E>::empty().reverse() =~= Seq::<E>::empty());
}

/// Reversing keeps the length.
pub proof fn lemma_reverse_length<E>(l: List<E>)
    ensures
        l.reversed()@.len() == l@.len(),
{
    lemma_view_of_from_seq(l@.reverse());
}

/// The last element is the one at position length - 1; on the empty list
/// both are absent.
pub proof fn lemma_last_is_kth<E>(l: List<E>)
    ensures
        l@.len() > 0 ==> last_of(l@) == kth_of(l@, l@.len() - 1),
        l@.len() == 0 ==> last_of(l@) is None && kth_of(l@, l@.len() - 1) is None,
{
}

/// The last element but one is absent on lists of fewer than two elements,
/// and is the one at position length - 2 otherwise.
pub proof fn lemma_last_but_one_is_kth<E>(l: List<E>)
    ensures
        l@.len() < 2 ==> last_but_one_of(l@) is None,
        l@.len() >= 2 ==> last_but_one_of(l@) == kth_of(l@, l@.len() - 2),
{
}

/// A position at or past the end finds no element.
pub proof fn lemma_kth_out_of_range<E>(l: List<E>, pos: int)
    requires
        pos >= l@.len(),
    ensures
        kth_of(l@, pos) is None,
{
}

} // verus!
