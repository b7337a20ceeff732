//! Iterators over a [`LinkedList`].
//!
//! [`Iter`] and [`IterMut`] borrow the list and walk it from both ends; a
//! shared remaining-count style is replaced here by a pair of positions
//! that close in on each other. [`IntoIter`] owns the list and drains it.
//! All contracts speak of the sequence of elements not yet yielded.
use vstd::prelude::*;

use crate::linked_deque::LinkedList;

verus! {

impl<T> LinkedList<T> {
    /// Starts a borrowing iteration, usable from both ends.
    pub fn iter(&self) -> (it: Iter<'_, T>)
        ensures
            it.remaining() == self@,
    {
        Iter { list: self, front: 0, back: self.elems.len() }
    }

    /// Starts a mutating iteration, usable from both ends.
    pub fn iter_mut(&mut self) -> (it: IterMut<'_, T>)
        ensures
            it.remaining() == old(self)@,
    {
        let n = self.elems.len();
        IterMut { list: self, front: 0, back: n }
    }

    /// Consumes the list and yields its elements from either end.
    pub fn into_iter(self) -> (it: IntoIter<T>)
        ensures
            it.remaining() == self@,
    {
        IntoIter { list: self }
    }
}

/// A borrowing iterator over a [`LinkedList`], usable from both ends.
pub struct Iter<'a, T> {
    list: &'a LinkedList<T>,
    front: usize,
    back: usize,
}

impl<'a, T> Iter<'a, T> {
    /// The elements not yet yielded, front first.
    pub closed spec fn remaining(self) -> Seq<T> {
        if self.front <= self.back <= self.list@.len() {
            self.list@.subrange(self.front as int, self.back as int)
        } else {
            Seq::empty()
        }
    }

    /// Yields the next element from the front, or `None` once both ends
    /// have met.
    pub fn next(&mut self) -> (r: Option<&'a T>)
        ensures
            old(self).remaining().len() == 0 ==> r is None
                && final(self).remaining() == old(self).remaining(),
            old(self).remaining().len() > 0 ==> r is Some
                && *r.unwrap() == old(self).remaining()[0]
                && final(self).remaining() == old(self).remaining().drop_first(),
    {
        if self.front < self.back && self.back <= self.list.elems.len() {
            let r = &self.list.elems[self.front];
            self.front = self.front + 1;
            proof {
                assert(final(self).remaining() =~= old(self).remaining().drop_first());
            }
            Some(r)
        } else {
            None
        }
    }

    /// Yields the next element from the back, or `None` once both ends
    /// have met.
    pub fn next_back(&mut self) -> (r: Option<&'a T>)
        ensures
            old(self).remaining().len() == 0 ==> r is None
                && final(self).remaining() == old(self).remaining(),
            old(self).remaining().len() > 0 ==> r is Some
                && *r.unwrap() == old(self).remaining().last()
                && final(self).remaining() == old(self).remaining().drop_last(),
    {
        if self.front < self.back && self.back <= self.list.elems.len() {
            let r = &self.list.elems[self.back - 1];
            self.back = self.back - 1;
            proof {
                assert(final(self).remaining() =~= old(self).remaining().drop_last());
            }
            Some(r)
        } else {
            None
        }
    }

    /// The exact number of elements still to be yielded, as both a lower
    /// and an upper bound.
    pub fn size_hint(&self) -> (r: (usize, Option<usize>))
        ensures
            r.0 == self.remaining().len(),
            r.1 == Some(r.0),
    {
        if self.front < self.back && self.back <= self.list.elems.len() {
            (self.back - self.front, Some(self.back - self.front))
        } else {
            (0, Some(0))
        }
    }

    /// The exact number of elements still to be yielded.
    pub fn len(&self) -> (r: usize)
        ensures
            r == self.remaining().len(),
    {
        self.size_hint().0
    }
}

/// Updating one place outside a window of a sequence leaves the window
/// as it was.
proof fn lemma_update_outside_subrange<T>(s: Seq<T>, i: int, lo: int, hi: int)
    requires
        0 <= i < s.len(),
        0 <= lo <= hi <= s.len(),
        i < lo || i >= hi,
    ensures
        forall|x: T| (#[trigger] s.update(i, x)).subrange(lo, hi) == s.subrange(lo, hi),
{
    assert forall|x: T|
        (#[trigger] s.update(i, x)).subrange(lo, hi) == s.subrange(lo, hi) by {
        assert(s.update(i, x).subrange(lo, hi) =~= s.subrange(lo, hi));
    }
}

/// A mutating iterator over a [`LinkedList`], usable from both ends. Each
/// call to `next` or `next_back` borrows the iterator, so one element is
/// worked on at a time.
pub struct IterMut<'a, T> {
    list: &'a mut LinkedList<T>,
    front: usize,
    back: usize,
}

impl<'a, T> IterMut<'a, T> {
    /// The elements not yet yielded, front first.
    pub closed spec fn remaining(self) -> Seq<T> {
        if self.front <= self.back <= (*self.list)@.len() {
            (*self.list)@.subrange(self.front as int, self.back as int)
        } else {
            Seq::empty()
        }
    }

    /// Yields a mutable borrow of the next element from the front, or
    /// `None` once both ends have met. The borrow is given out one call
    /// at a time; what is written through it stays in the list.
    pub fn next(&mut self) -> (r: Option<&mut T>)
        ensures
            old(self).remaining().len() == 0 ==> r is None
                && final(self).remaining() == old(self).remaining(),
            old(self).remaining().len() > 0 ==> r is Some
                && *r.unwrap() == old(self).remaining()[0]
                && final(self).remaining() == old(self).remaining().drop_first(),
    {
        if self.front < self.back && self.back <= self.list.elems.len() {
            let ghost s: Seq<T> = (*self.list)@;
            let ghost back: int = self.back as int;
            let i = self.front;
            self.front = self.front + 1;
            proof {
                assert(s.subrange(i + 1, back) =~= s.subrange(i as int, back).drop_first());
                lemma_update_outside_subrange(s, i as int, i + 1, back);
            }
            let r = &mut self.list.elems[i];
            Some(r)
        } else {
            None
        }
    }

    /// Yields a mutable borrow of the next element from the back, or
    /// `None` once both ends have met.
    pub fn next_back(&mut self) -> (r: Option<&mut T>)
        ensures
            old(self).remaining().len() == 0 ==> r is None
                && final(self).remaining() == old(self).remaining(),
            old(self).remaining().len() > 0 ==> r is Some
                && *r.unwrap() == old(self).remaining().last()
                && final(self).remaining() == old(self).remaining().drop_last(),
    {
        if self.front < self.back && self.back <= self.list.elems.len() {
            let ghost s: Seq<T> = (*self.list)@;
            let ghost front: int = self.front as int;
            let i = self.back - 1;
            self.back = i;
            proof {
                assert(s.subrange(front, i as int)
                    =~= s.subrange(front, i + 1).drop_last());
                lemma_update_outside_subrange(s, i as int, front, i as int);
            }
            let r = &mut self.list.elems[i];
            Some(r)
        } else {
            None
        }
    }

    /// The exact number of elements still to be yielded, as both a lower
    /// and an upper bound.
    pub fn size_hint(&self) -> (r: (usize, Option<usize>))
        ensures
            r.0 == self.remaining().len(),
            r.1 == Some(r.0),
    {
        if self.front < self.back && self.back <= self.list.elems.len() {
            (self.back - self.front, Some(self.back - self.front))
        } else {
            (0, Some(0))
        }
    }
}

/// A consuming iterator over a [`LinkedList`], usable from both ends.
pub struct IntoIter<T> {
    list: LinkedList<T>,
}

impl<T> IntoIter<T> {
    /// The elements not yet yielded, front first.
    pub closed spec fn remaining(self) -> Seq<T> {
        self.list@
    }

    /// Yields the next element from the front, or `None` once drained.
    pub fn next(&mut self) -> (r: Option<T>)
        ensures
            old(self).remaining().len() == 0 ==> r is None
                && final(self).remaining() == old(self).remaining(),
            old(self).remaining().len() > 0 ==> r == Some(old(self).remaining()[0])
                && final(self).remaining() == old(self).remaining().drop_first(),
    {
        self.list.pop_front()
    }

    /// Yields the next element from the back, or `None` once drained.
    pub fn next_back(&mut self) -> (r: Option<T>)
        ensures
            old(self).remaining().len() == 0 ==> r is None
                && final(self).remaining() == old(self).remaining(),
            old(self).remaining().len() > 0 ==> r == Some(old(self).remaining().last())
                && final(self).remaining() == old(self).remaining().drop_last(),
    {
        self.list.pop_back()
    }
}

} // verus!
