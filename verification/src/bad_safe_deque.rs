//! A plain double-ended list.
//!
//! [`List`] can push, pop and peek at both ends; nothing more. Elements are
//! kept in one growable buffer, and the view is the sequence of elements
//! from front to back.
use vstd::prelude::*;

verus! {

/// A double-ended list; `self@[0]` is the front element.
pub struct List<T> {
    elems: Vec<T>,
}

impl<T> View for List<T> {
    type V = Seq<T>;

    closed spec fn view(&self) -> Seq<T> {
        self.elems@
    }
}

impl<T> List<T> {
    /// Creates an empty list.
    pub fn new() -> (s: Self)
        ensures
            s@ == Seq::<T>::empty(),
    {
        List { elems: Vec::new() }
    }

    /// Places an element at the front of the list.
    pub fn push_front(&mut self, elem: T)
        ensures
            final(self)@ == seq![elem] + old(self)@,
    {
        self.elems.insert(0, elem);
        proof {
            assert(final(self)@ =~= seq![elem] + old(self)@);
        }
    }

    /// Pops the front element; an empty list yields `None` and is
    /// unchanged.
    pub fn pop_front(&mut self) -> (r: Option<T>)
        ensures
            old(self)@.len() == 0 ==> r is None && final(self)@ == old(self)@,
            old(self)@.len() > 0 ==> r == Some(old(self)@[0])
                && final(self)@ == old(self)@.drop_first(),
    {
        if self.elems.len() == 0 {
            None
        } else {
            let r = self.elems.remove(0);
            proof {
                assert(final(self)@ =~= old(self)@.drop_first());
            }
            Some(r)
        }
    }

    /// Places an element at the back of the list.
    pub fn push_back(&mut self, elem: T)
        ensures
            final(self)@ == old(self)@.push(elem),
    {
        self.elems.push(elem);
    }

    /// Pops the back element; an empty list yields `None` and is
    /// unchanged.
    pub fn pop_back(&mut self) -> (r: Option<T>)
        ensures
            old(self)@.len() == 0 ==> r is None && final(self)@ == old(self)@,
            old(self)@.len() > 0 ==> r == Some(old(self)@.last())
                && final(self)@ == old(self)@.drop_last(),
    {
        let r = self.elems.pop();
        proof {
            if old(self)@.len() > 0 {
                assert(final(self)@ =~= old(self)@.drop_last());
            }
        }
        r
    }

    /// Borrows the front element; `None` on an empty list.
    pub fn peek_front(&self) -> (r: Option<&T>)
        ensures
            self@.len() == 0 ==> r is None,
            self@.len() > 0 ==> r is Some && *r.unwrap() == self@[0],
    {
        if self.elems.len() == 0 {
            None
        } else {
            Some(&self.elems[0])
        }
    }

    /// Borrows the back element; `None` on an empty list.
    pub fn peek_back(&self) -> (r: Option<&T>)
        ensures
            self@.len() == 0 ==> r is None,
            self@.len() > 0 ==> r is Some && *r.unwrap() == self@.last(),
    {
        if self.elems.len() == 0 {
            None
        } else {
            Some(&self.elems[self.elems.len() - 1])
        }
    }

    /// Mutably borrows the front element; `None` on an empty list.
    pub fn peek_mut_front(&mut self) -> (r: Option<&mut T>)
        ensures
            old(self)@.len() == 0 ==> r is None && final(self)@ == old(self)@,
            old(self)@.len() > 0 ==> r is Some && *r.unwrap() == old(self)@[0]
                && final(self)@ == old(self)@.update(0, *final(r.unwrap())),
    {
        if self.elems.len() == 0 {
            None
        } else {
            Some(&mut self.elems[0])
        }
    }

    /// Mutably borrows the back element; `None` on an empty list.
    pub fn peek_mut_back(&mut self) -> (r: Option<&mut T>)
        ensures
            old(self)@.len() == 0 ==> r is None && final(self)@ == old(self)@,
            old(self)@.len() > 0 ==> r is Some && *r.unwrap() == old(self)@.last()
                && final(self)@
                    == old(self)@.update(old(self)@.len() - 1, *final(r.unwrap())),
    {
        if self.elems.len() == 0 {
            None
        } else {
            let i = self.elems.len() - 1;
            Some(&mut self.elems[i])
        }
    }

    /// Starts a borrowing iteration over the list, front first.
    pub fn iter(&self) -> (it: Iter<'_, T>)
        ensures
            it.remaining() == self@,
    {
        Iter::new(self)
    }

    /// Consumes the list and yields its elements from either end.
    pub fn into_iter(self) -> (it: IntoIter<T>)
        ensures
            it.remaining() == self@,
    {
        IntoIter { elems: self.elems }
    }
}

/// A borrowing iterator over a [`List`], front first.
pub struct Iter<'a, T> {
    list: &'a List<T>,
    pos: usize,
}

impl<'a, T> Iter<'a, T> {
    /// The elements not yet yielded, nearest first.
    pub closed spec fn remaining(self) -> Seq<T> {
        if self.pos <= self.list@.len() {
            self.list@.skip(self.pos as int)
        } else {
            Seq::empty()
        }
    }

    /// Starts at the front of the given list.
    pub fn new(list: &List<T>) -> (it: Iter<'_, T>)
        ensures
            it.remaining() == list@,
    {
        let it = Iter { list, pos: 0 };
        proof {
            assert(it.remaining() =~= list@);
        }
        it
    }

    /// Yields the next element, or `None` once the list is walked.
    pub fn next(&mut self) -> (r: Option<&'a T>)
        ensures
            old(self).remaining().len() == 0 ==> r is None
                && final(self).remaining() == old(self).remaining(),
            old(self).remaining().len() > 0 ==> r is Some
                && *r.unwrap() == old(self).remaining()[0]
                && final(self).remaining() == old(self).remaining().drop_first(),
    {
        if self.pos < self.list.elems.len() {
            let r = &self.list.elems[self.pos];
            self.pos = self.pos + 1;
            proof {
                assert(final(self).remaining() =~= old(self).remaining().drop_first());
            }
            Some(r)
        } else {
            None
        }
    }
}

/// A consuming iterator over a [`List`], usable from both ends.
pub struct IntoIter<T> {
    elems: Vec<T>,
}

impl<T> IntoIter<T> {
    /// The elements not yet yielded, front first.
    pub closed spec fn remaining(self) -> Seq<T> {
        self.elems@
    }

    /// Yields the next element from the front, or `None` once drained.
    pub fn next(&mut self) -> (r: Option<T>)
        ensures
            old(self).remaining().len() == 0 ==> r is None
                && final(self).remaining() == old(self).remaining(),
            old(self).remaining().len() > 0 ==> r == Some(old(self).remaining()[0])
                && final(self).remaining() == old(self).remaining().drop_first(),
    {
        if self.elems.len() == 0 {
            None
        } else {
            let r = self.elems.remove(0);
            proof {
                assert(final(self).remaining() =~= old(self).remaining().drop_first());
            }
            Some(r)
        }
    }

    /// Yields the next element from the back, or `None` once drained.
    pub fn next_back(&mut self) -> (r: Option<T>)
        ensures
            old(self).remaining().len() == 0 ==> r is None
                && final(self).remaining() == old(self).remaining(),
            old(self).remaining().len() > 0 ==> r == Some(old(self).remaining().last())
                && final(self).remaining() == old(self).remaining().drop_last(),
    {
        let r = self.elems.pop();
        proof {
            if old(self).remaining().len() > 0 {
                assert(final(self).remaining() =~= old(self).remaining().drop_last());
            }
        }
        r
    }
}

} // verus!
