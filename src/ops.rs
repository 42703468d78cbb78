use vstd::prelude::*;

use crate::laws::lemma_from_seq_of_view;
use crate::list::List;

verus! {

/// The last element of `s`, if there is one.
pub open spec fn last_of<E>(s: Seq<E>) -> Option<E> {
    if s.len() == 0 {
        None
    } else {
        Some(s.last())
    }
}

/// The element just before the last one of `s`, if `s` has at least two.
pub open spec fn last_but_one_of<E>(s: Seq<E>) -> Option<E> {
    if s.len() < 2 {
        None
    } else {
        Some(s[s.len() - 2])
    }
}

/// The element at (0-based) position `pos` of `s`, if `pos` is in range.
pub open spec fn kth_of<E>(s: Seq<E>, pos: int) -> Option<E> {
    if 0 <= pos < s.len() {
        Some(s[pos])
    } else {
        None
    }
}

/// The last element of the list; `None` for the empty list.
pub fn last<E>(list: List<E>) -> (r: Option<E>)
    ensures
        r == last_of(list@),
    decreases list@.len(),
{
    match list {
        List::Nil => None,
        List::Cons(x, xs) => {
            let rest = *xs;
            assert(list@ =~= seq![x] + rest@);
            match rest {
                List::Nil => Some(x),
                _ => last(rest),
            }
        },
    }
}

/// The last element but one; `None` for a list of fewer than two elements.
pub fn last_but_one<E>(list: List<E>) -> (r: Option<E>)
    ensures
        r == last_but_one_of(list@),
    decreases list@.len(),
{
    match list {
        List::Nil => None,
        List::Cons(x, xs) => {
            let rest = *xs;
            assert(list@ =~= seq![x] + rest@);
            match &rest {
                List::Nil => None,
                List::Cons(_, ys) => {
                    assert(rest@.len() == 1 + ys@.len());
                    if matches!(**ys, List::Nil) {
                        Some(x)
                    } else {
                        last_but_one(rest)
                    }
                },
            }
        },
    }
}

/// The element at (0-based) position `pos`; `None` when `pos` is past the
/// end of the list.
pub fn kth<E>(list: List<E>, pos: usize) -> (r: Option<E>)
    ensures
        r == kth_of(list@, pos as int),
    decreases list@.len(),
{
    match list {
        List::Nil => None,
        List::Cons(x, xs) => {
            if pos == 0 {
                Some(x)
            } else {
                let rest = *xs;
                let r = kth(rest, pos - 1);
                assert(list@ =~= seq![x] + rest@);
                r
            }
        },
    }
}

/// The number of elements of the list.
pub fn length<E>(list: List<E>) -> (r: usize)
    requires
        list@.len() <= usize::MAX,
    ensures
        r == list@.len(),
    decreases list@.len(),
{
    match list {
        List::Nil => 0,
        List::Cons(_, xs) => 1 + length(*xs),
    }
}

/// Builds a new list holding the elements of `list` in reverse order,
/// in one forward pass: each head taken off the input is pushed onto an
/// accumulator. The input is consumed.
pub fn reverse<E>(list: List<E>) -> (r: List<E>)
    ensures
        r@ == list@.reverse(),
        r == list.reversed(),
{
    let ghost all = list@;
    let ghost mut k: int = 0;
    let mut res: List<E> = List::Nil;
    let mut from = list;
    loop
        invariant
            0 <= k <= all.len(),
            from@ == all.subrange(k, all.len() as int),
            res@.len() == k,
            forall|i: int| 0 <= i < k ==> #[trigger] res@[i] == all[k - 1 - i],
        ensures
            k == all.len(),
            res@.len() == k,
            forall|i: int| 0 <= i < k ==> #[trigger] res@[i] == all[k - 1 - i],
        decreases all.len() - k,
    {
        let ghost cur = from@;
        match from {
            List::Cons(x, xs) => {
                proof {
                    assert(cur == seq![x] + xs@);
                    assert(cur[0] == all[k]);
                }
                res = List::Cons(x, Box::new(res));
                from = *xs;
                proof {
                    assert(from@ =~= cur.drop_first());
                    k = k + 1;
                }
            },
            List::Nil => break,
        }
    }
    assert(res@ =~= all.reverse());
    proof {
        lemma_from_seq_of_view(res);
    }
    res
}

} // verus!
