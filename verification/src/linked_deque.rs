//! A double-ended list with a splicing cursor.
//!
//! [`LinkedList`] pushes, pops and peeks at both ends, and hands out three
//! iterators and a [`cursor::CursorMut`]. The cursor is the only way to
//! change the list away from its ends: it moves circularly over the
//! elements — with one extra ghost position between back and front — and
//! can split the list at its position or splice whole lists in.
//!
//! The view of a list is the sequence of its elements from front to back.
use vstd::prelude::*;

pub mod cursor;
pub mod iter;

verus! {

/// A double-ended list; `self@[0]` is the front element.
#[derive(Clone, Debug, PartialEq, Eq, PartialOrd, Ord, Hash)]
pub struct LinkedList<T> {
    pub(crate) elems: Vec<T>,
}

impl<T> View for LinkedList<T> {
    type V = Seq<T>;

    closed spec fn view(&self) -> Seq<T> {
        self.elems@
    }
}

impl<T> LinkedList<T> {
    /// Creates an empty list.
    pub fn new() -> (s: Self)
        ensures
            s@ == Seq::<T>::empty(),
    {
        LinkedList { elems: Vec::new() }
    }

    /// Places an element at the front of the list.
    pub fn push_front(&mut self, elem: T)
        ensures
            final(self)@ == seq![elem] + old(self)@,
    {
        self.elems.insert(0, elem);
        proof {
            assert(final(self)@ =~= seq![elem] + old(self)@);
        }
    }

    /// Places an element at the back of the list.
    pub fn push_back(&mut self, elem: T)
        ensures
            final(self)@ == old(self)@.push(elem),
    {
        self.elems.push(elem);
    }

    /// Pops the front element; an empty list yields `None` and is
    /// unchanged.
    pub fn pop_front(&mut self) -> (r: Option<T>)
        ensures
            old(self)@.len() == 0 ==> r is None && final(self)@ == old(self)@,
            old(self)@.len() > 0 ==> r == Some(old(self)@[0])
                && final(self)@ == old(self)@.drop_first(),
    {
        if self.elems.len() == 0 {
            None
        } else {
            let r = self.elems.remove(0);
            proof {
                assert(final(self)@ =~= old(self)@.drop_first());
            }
            Some(r)
        }
    }

    /// Pops the back element; an empty list yields `None` and is
    /// unchanged.
    pub fn pop_back(&mut self) -> (r: Option<T>)
        ensures
            old(self)@.len() == 0 ==> r is None && final(self)@ == old(self)@,
            old(self)@.len() > 0 ==> r == Some(old(self)@.last())
                && final(self)@ == old(self)@.drop_last(),
    {
        let r = self.elems.pop();
        proof {
            if old(self)@.len() > 0 {
                assert(final(self)@ =~= old(self)@.drop_last());
            }
        }
        r
    }

    /// Borrows the front element; `None` on an empty list.
    pub fn front(&self) -> (r: Option<&T>)
        ensures
            self@.len() == 0 ==> r is None,
            self@.len() > 0 ==> r is Some && *r.unwrap() == self@[0],
    {
        if self.elems.len() == 0 {
            None
        } else {
            Some(&self.elems[0])
        }
    }

    /// Mutably borrows the front element; `None` on an empty list.
    pub fn front_mut(&mut self) -> (r: Option<&mut T>)
        ensures
            old(self)@.len() == 0 ==> r is None && final(self)@ == old(self)@,
            old(self)@.len() > 0 ==> r is Some && *r.unwrap() == old(self)@[0]
                && final(self)@ == old(self)@.update(0, *final(r.unwrap())),
    {
        if self.elems.len() == 0 {
            None
        } else {
            Some(&mut self.elems[0])
        }
    }

    /// Borrows the back element; `None` on an empty list.
    pub fn back(&self) -> (r: Option<&T>)
        ensures
            self@.len() == 0 ==> r is None,
            self@.len() > 0 ==> r is Some && *r.unwrap() == self@.last(),
    {
        if self.elems.len() == 0 {
            None
        } else {
            Some(&self.elems[self.elems.len() - 1])
        }
    }

    /// Mutably borrows the back element; `None` on an empty list.
    pub fn back_mut(&mut self) -> (r: Option<&mut T>)
        ensures
            old(self)@.len() == 0 ==> r is None && final(self)@ == old(self)@,
            old(self)@.len() > 0 ==> r is Some && *r.unwrap() == old(self)@.last()
                && final(self)@
                    == old(self)@.update(old(self)@.len() - 1, *final(r.unwrap())),
    {
        if self.elems.len() == 0 {
            None
        } else {
            let i = self.elems.len() - 1;
            Some(&mut self.elems[i])
        }
    }

    /// The number of elements in the list.
    pub fn len(&self) -> (r: usize)
        ensures
            r == self@.len(),
    {
        self.elems.len()
    }

    /// Whether the list holds no element.
    pub fn is_empty(&self) -> (r: bool)
        ensures
            r == (self@.len() == 0),
    {
        self.elems.len() == 0
    }

    /// Removes every element.
    pub fn clear(&mut self)
        ensures
            final(self)@ == Seq::<T>::empty(),
    {
        self.elems.clear();
    }

    /// Moves every element of `other` to the back of the list, in order.
    pub fn extend(&mut self, other: Vec<T>)
        ensures
            final(self)@ == old(self)@ + other@,
    {
        let mut other = other;
        self.elems.append(&mut other);
    }

    /// Builds a list that holds exactly the elements of `v`, in order.
    pub fn from_vec(v: Vec<T>) -> (s: Self)
        ensures
            s@ == v@,
    {
        LinkedList { elems: v }
    }
}

impl<T> Default for LinkedList<T> {
    /// The default list is empty.
    fn default() -> (s: Self)
        ensures
            s@ == Seq::<T>::empty(),
    {
        LinkedList::new()
    }
}

/// The view a list reaches when, starting from [`LinkedList::new`], every
/// element of `s` is handed to [`LinkedList::push_back`] in order — as
/// when the elements were collected from an iteration of a list whose
/// view is `s`.
pub open spec fn built_by_push_back<T>(s: Seq<T>) -> Seq<T>
    decreases s.len(),
{
    if s.len() == 0 {
        Seq::empty()
    } else {
        built_by_push_back(s.drop_last()).push(s.last())
    }
}

/// Round trip: collecting the elements of a list and rebuilding a list
/// from them by repeated `push_back` reproduces the original view, for
/// every list.
pub proof fn lemma_collect_rebuild<T>(s: Seq<T>)
    ensures
        built_by_push_back(s) == s,
    decreases s.len(),
{
    if s.len() == 0 {
        assert(built_by_push_back(s) =~= s);
    } else {
        lemma_collect_rebuild(s.drop_last());
        assert(built_by_push_back(s) =~= s);
    }
}

/// The elements that `k` calls of [`LinkedList::pop_front`] return on a
/// list with view `s`, in the order they come out — each call yields the
/// first remaining element, as its contract states.
pub open spec fn popped_from_front<T>(s: Seq<T>, k: nat) -> Seq<T>
    decreases k,
{
    if k == 0 || s.len() == 0 {
        Seq::empty()
    } else {
        seq![s[0]] + popped_from_front(s.drop_first(), (k - 1) as nat)
    }
}

/// The elements that `k` calls of [`LinkedList::pop_back`] return on a
/// list with view `s`, in the order they come out.
pub open spec fn popped_from_back<T>(s: Seq<T>, k: nat) -> Seq<T>
    decreases k,
{
    if k == 0 || s.len() == 0 {
        Seq::empty()
    } else {
        seq![s.last()] + popped_from_back(s.drop_last(), (k - 1) as nat)
    }
}

/// Draining a list from the front pops exactly its elements, first to
/// last: as many pops as the length, each in first-in-first-out order
/// relative to `push_back`.
pub proof fn lemma_drain_front_in_order<T>(s: Seq<T>, k: nat)
    requires
        k <= s.len(),
    ensures
        popped_from_front(s, k) == s.take(k as int),
    decreases k,
{
    if k == 0 {
        assert(popped_from_front(s, k) =~= s.take(k as int));
    } else {
        lemma_drain_front_in_order(s.drop_first(), (k - 1) as nat);
        assert(popped_from_front(s, k) =~= s.take(k as int));
    }
}

/// Draining a list from the back pops exactly its elements, last to
/// first: each pop is last-in-first-out relative to `push_back`.
pub proof fn lemma_drain_back_in_reverse<T>(s: Seq<T>, k: nat)
    requires
        k <= s.len(),
    ensures
        popped_from_back(s, k) == s.skip(s.len() - k).reverse(),
    decreases k,
{
    if k == 0 {
        assert(popped_from_back(s, k) =~= s.skip(s.len() - k).reverse());
    } else {
        lemma_drain_back_in_reverse(s.drop_last(), (k - 1) as nat);
        assert(s.drop_last().skip(s.len() - k) =~= s.skip(s.len() - k).drop_last());
        assert(popped_from_back(s, k) =~= s.skip(s.len() - k).reverse());
    }
}

} // verus!
