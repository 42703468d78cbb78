use vstd::prelude::*;

use crate::laws::lemma_from_seq_of_view;

verus! {

/// A singly-linked list: each `Cons` node owns the rest of the list,
/// and `Nil` ends it.
#[derive(Debug, PartialEq, Eq)]
pub enum List<E> {
    Cons(E, Box<List<E>>),
    Nil,
}

impl<E> List<E> {
    /// The elements of the list, head first.
    pub open spec fn elems(&self) -> Seq<E>
        decreases self,
    {
        match self {
            List::Cons(x, xs) => seq![*x] + xs.elems(),
            List::Nil => Seq::empty(),
        }
    }

    /// The list whose elements are `s`: the first element is the head, and
    /// the list built from the later ones is the tail.
    pub open spec fn from_seq(s: Seq<E>) -> List<E>
        decreases s.len(),
    {
        if s.len() == 0 {
            List::Nil
        } else {
            List::Cons(s[0], Box::new(List::<E>::from_seq(s.drop_first())))
        }
    }

    /// The list holding the same elements in reverse order.
    pub open spec fn reversed(self) -> List<E> {
        List::<E>::from_seq(self@.reverse())
    }
}

impl<E> View for List<E> {
    type V = Seq<E>;

    open spec fn view(&self) -> Seq<E> {
        self.elems()
    }
}

impl<E> List<E> {
    /// Builds a list holding the elements of `v` in the same order; an empty
    /// vector gives `Nil`.
    pub fn from_iter(v: Vec<E>) -> (r: List<E>)
        ensures
            r@ == v@,
            r == List::<E>::from_seq(v@),
    {
        let ghost all = v@;
        let mut rest = v;
        let mut res: List<E> = List::Nil;
        while rest.len() > 0
            invariant
                rest@.len() <= all.len(),
                rest@ == all.subrange(0, rest@.len() as int),
                res@ == all.subrange(rest@.len() as int, all.len() as int),
            decreases rest@.len(),
        {
            let ghost n = rest@.len() as int;
            let x = rest.pop().unwrap();
            assert(x == all[n - 1]);
            assert(rest@ =~= all.subrange(0, n - 1));
            res = List::Cons(x, Box::new(res));
            assert(res@ =~= all.subrange(n - 1, all.len() as int));
        }
        assert(res@ =~= all);
        proof {
            lemma_from_seq_of_view(res);
        }
        res
    }

    /// Starts a one-shot cursor over the elements of the list, which it takes.
    pub fn iter(self) -> (r: ListIter<E>)
        ensures
            r@ == self@,
    {
        ListIter { current: Some(self) }
    }

    /// Collects the elements of the list, in order, into a vector.
    pub fn to_vec(self) -> (r: Vec<E>)
        ensures
            r@ == self@,
    {
        let ghost all = self@;
        let mut it = self.iter();
        let mut out: Vec<E> = Vec::new();
        loop
            invariant
                out@ + it@ == all,
            ensures
                out@ == all,
            decreases it@.len(),
        {
            match it.next() {
                Some(x) => out.push(x),
                None => {
                    assert(out@ =~= all);
                    break;
                },
            }
        }
        out
    }
}

/// A cursor that hands out the elements of a list it owns, head first.
/// Once it has run off the end it stays exhausted.
pub struct ListIter<E> {
    current: Option<List<E>>,
}

impl<E> View for ListIter<E> {
    type V = Seq<E>;

    /// The elements not handed out yet.
    closed spec fn view(&self) -> Seq<E> {
        match self.current {
            Some(l) => l@,
            None => Seq::empty(),
        }
    }
}

impl<E> ListIter<E> {
    /// Hands out the next element, or `None` once every element has been
    /// handed out.
    pub fn next(&mut self) -> (r: Option<E>)
        ensures
            old(self)@.len() == 0 ==> r is None && final(self)@ == old(self)@,
            old(self)@.len() > 0 ==> r == Some(old(self)@[0]) && final(self)@
                == old(self)@.drop_first(),
    {
        let val = self.current.take();
        match val {
            Some(List::Cons(x, xs)) => {
                self.current = Some(*xs);
                Some(x)
            },
            Some(List::Nil) => None,
            None => None,
        }
    }
}

} // verus!
