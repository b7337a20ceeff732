//! A singly-linked queue.
//!
//! [`List`] owns a chain of boxed nodes whose head is the front of the
//! queue. Its view is the sequence of elements from front to back, so
//! `self@[0]` is the element a [`List::pop_front`] would return.
//! `push_back` walks the chain to its end; everything else works at the
//! head. [`reverse`] turns the queue around in place.
use vstd::prelude::*;

verus! {

type Link<T> = Option<Box<Node<T>>>;

struct Node<T> {
    elem: T,
    next: Link<T>,
}

/// A singly-linked queue; the head node is the front.
pub struct List<T> {
    head: Link<T>,
}

/// The sequence of elements hanging off a link, nearest first.
spec fn link_seq<T>(l: Link<T>) -> Seq<T>
    decreases l,
{
    match l {
        None => Seq::empty(),
        Some(node) => seq![node.elem] + link_seq(node.next),
    }
}

impl<T> View for List<T> {
    type V = Seq<T>;

    closed spec fn view(&self) -> Seq<T> {
        link_seq(self.head)
    }
}

impl<T> List<T> {
    /// Creates an empty queue.
    pub fn new() -> (s: List<T>)
        ensures
            s@ == Seq::<T>::empty(),
    {
        List { head: None }
    }

    /// Pops the front element; an empty queue yields `None` and is
    /// unchanged.
    pub fn pop_front(&mut self) -> (r: Option<T>)
        ensures
            old(self)@.len() == 0 ==> r is None && final(self)@ == old(self)@,
            old(self)@.len() > 0 ==> r == Some(old(self)@[0])
                && final(self)@ == old(self)@.drop_first(),
    {
        match self.head.take() {
            None => None,
            Some(node) => {
                let node = *node;
                self.head = node.next;
                Some(node.elem)
            },
        }
    }

    /// Places an element at the front of the queue.
    pub fn push_front(&mut self, elem: T)
        ensures
            final(self)@ == seq![elem] + old(self)@,
    {
        let head = self.head.take();
        self.head = Some(Box::new(Node { elem, next: head }));
    }

    /// Places an element at the back of the queue.
    pub fn push_back(&mut self, elem: T)
        ensures
            final(self)@ == old(self)@.push(elem),
    {
        push_back_link(&mut self.head, elem);
    }

    /// Borrows the front element; `None` on an empty queue.
    pub fn peek(&self) -> (r: Option<&T>)
        ensures
            self@.len() == 0 ==> r is None,
            self@.len() > 0 ==> r is Some && *r.unwrap() == self@[0],
    {
        match &self.head {
            None => None,
            Some(node) => Some(&node.elem),
        }
    }

    /// Mutably borrows the front element; `None` on an empty queue.
    pub fn peek_mut(&mut self) -> (r: Option<&mut T>)
        ensures
            old(self)@.len() == 0 ==> r is None && final(self)@ == old(self)@,
            old(self)@.len() > 0 ==> r is Some && *r.unwrap() == old(self)@[0]
                && final(self)@ == old(self)@.update(0, *final(r.unwrap())),
    {
        match &mut self.head {
            None => None,
            Some(node) => Some(&mut node.elem),
        }
    }

    /// Starts a borrowing iteration over the queue, front first.
    pub fn iter(&self) -> (it: Iter<'_, T>)
        ensures
            it.remaining() == self@,
    {
        Iter::new(self)
    }

    /// Starts a mutating iteration over the queue, front first.
    pub fn iter_mut(&mut self) -> (it: IterMut<'_, T>)
        ensures
            it.remaining() == old(self)@,
    {
        IterMut::new(self)
    }

    /// Consumes the queue and yields its elements from the front.
    pub fn into_iter(self) -> (it: IntoIter<T>)
        ensures
            it.remaining() == self@,
    {
        IntoIter(self)
    }
}

fn push_back_link<T>(l: &mut Link<T>, elem: T)
    ensures
        link_seq(*final(l)) == link_seq(*old(l)).push(elem),
    decreases *old(l),
{
    match l {
        None => {
            *l = Some(Box::new(Node { elem, next: None }));
            proof {
                assert(link_seq(*l) =~= link_seq(*old(l)).push(elem));
            }
        },
        Some(node) => {
            push_back_link(&mut node.next, elem);
            proof {
                assert(link_seq(*final(l)) =~= link_seq(*old(l)).push(elem));
            }
        },
    }
}

impl<T> Drop for List<T> {
    /// Tears the chain down iteratively, one node per step, so that
    /// dropping a long queue cannot exhaust the call stack through
    /// node-by-node recursion.
    fn drop(&mut self)
        opens_invariants none
        no_unwind
    {
        let mut link: Link<T> = None;
        core::mem::swap(&mut self.head, &mut link);
        loop
            decreases link_seq(link).len(),
        {
            let mut taken: Link<T> = None;
            core::mem::swap(&mut link, &mut taken);
            match taken {
                None => { break; },
                Some(mut boxed) => {
                    core::mem::swap(&mut link, &mut boxed.next);
                },
            }
        }
    }
}

/// Reverses the queue in place: the former front becomes the back.
pub fn reverse<T>(ls: &mut List<T>)
    ensures
        final(ls)@ == old(ls)@.reverse(),
{
    let ghost orig: Seq<T> = ls@;
    let mut oldhead = ls.head.take();
    let mut head: Link<T> = None;
    while oldhead.is_some()
        invariant
            link_seq(oldhead).reverse() + link_seq(head) == orig.reverse(),
        decreases link_seq(oldhead).len(),
    {
        let mut node = oldhead.take().unwrap();
        oldhead = node.next.take();
        node.next = head.take();
        proof {
            assert((seq![node.elem] + link_seq(oldhead)).reverse()
                =~= link_seq(oldhead).reverse() + seq![node.elem]);
        }
        head = Some(node);
        proof {
            assert(link_seq(oldhead).reverse() + link_seq(head) =~= orig.reverse());
        }
    }
    proof {
        assert(link_seq(oldhead) =~= Seq::<T>::empty());
        assert(link_seq(oldhead).reverse() =~= Seq::<T>::empty());
        assert(link_seq(head) =~= orig.reverse());
    }
    ls.head = head;
}

/// A borrowing iterator over a queue, front first.
pub struct Iter<'a, T>(&'a Link<T>);

impl<'a, T> Iter<'a, T> {
    /// The elements not yet yielded, nearest first.
    pub closed spec fn remaining(self) -> Seq<T> {
        link_seq(*self.0)
    }

    /// Starts at the front of the given queue.
    pub fn new(list: &List<T>) -> (it: Iter<'_, T>)
        ensures
            it.remaining() == list@,
    {
        Iter(&list.head)
    }

    /// Yields the next element, or `None` once the chain is exhausted.
    pub fn next(&mut self) -> (r: Option<&'a T>)
        ensures
            old(self).remaining().len() == 0 ==> r is None
                && final(self).remaining() == old(self).remaining(),
            old(self).remaining().len() > 0 ==> r is Some
                && *r.unwrap() == old(self).remaining()[0]
                && final(self).remaining() == old(self).remaining().drop_first(),
    {
        match self.0 {
            None => None,
            Some(node) => {
                self.0 = &node.next;
                Some(&node.elem)
            },
        }
    }

    /// Borrows the element `next` would yield, without advancing.
    pub fn peek(&self) -> (r: Option<&T>)
        ensures
            self.remaining().len() == 0 ==> r is None,
            self.remaining().len() > 0 ==> r is Some && *r.unwrap() == self.remaining()[0],
    {
        match self.0 {
            None => None,
            Some(node) => Some(&node.elem),
        }
    }
}

/// A mutating iterator over a queue, front first.
pub struct IterMut<'a, T>(Option<&'a mut Node<T>>);

impl<'a, T> IterMut<'a, T> {
    /// The elements not yet yielded, nearest first.
    pub closed spec fn remaining(self) -> Seq<T> {
        match self.0 {
            None => Seq::empty(),
            Some(node) => seq![node.elem] + link_seq(node.next),
        }
    }

    /// Starts at the front of the given queue.
    pub fn new(list: &'a mut List<T>) -> (it: IterMut<'a, T>)
        ensures
            it.remaining() == old(list)@,
    {
        IterMut(
            match &mut list.head {
                None => None,
                Some(node) => Some(&mut **node),
            },
        )
    }

    /// Yields a mutable borrow of the next element, or `None` once the
    /// chain is exhausted.
    pub fn next(&mut self) -> (r: Option<&'a mut T>)
        ensures
            old(self).remaining().len() == 0 ==> r is None
                && final(self).remaining() == old(self).remaining(),
            old(self).remaining().len() > 0 ==> r is Some
                && *r.unwrap() == old(self).remaining()[0]
                && final(self).remaining() == old(self).remaining().drop_first(),
    {
        match self.0.take() {
            None => None,
            Some(node) => {
                self.0 = match &mut node.next {
                    None => None,
                    Some(next_node) => Some(&mut **next_node),
                };
                Some(&mut node.elem)
            },
        }
    }

    /// Borrows the element `next` would yield, without advancing.
    pub fn peek(&self) -> (r: Option<&T>)
        ensures
            self.remaining().len() == 0 ==> r is None,
            self.remaining().len() > 0 ==> r is Some && *r.unwrap() == self.remaining()[0],
    {
        match &self.0 {
            None => None,
            Some(node) => Some(&node.elem),
        }
    }

    /// Mutably borrows the element `next` would yield, without advancing.
    pub fn peek_mut(&mut self) -> (r: Option<&mut T>)
        ensures
            old(self).remaining().len() == 0 ==> r is None
                && final(self).remaining() == old(self).remaining(),
            old(self).remaining().len() > 0 ==> r is Some
                && *r.unwrap() == old(self).remaining()[0]
                && final(self).remaining()
                    == old(self).remaining().update(0, *final(r.unwrap())),
    {
        match &mut self.0 {
            None => None,
            Some(node) => Some(&mut node.elem),
        }
    }
}

/// A consuming iterator over a queue, front first.
pub struct IntoIter<T>(List<T>);

impl<T> IntoIter<T> {
    /// The elements not yet yielded, nearest first.
    pub closed spec fn remaining(self) -> Seq<T> {
        self.0@
    }

    /// Yields the next element, or `None` once the queue is drained.
    pub fn next(&mut self) -> (r: Option<T>)
        ensures
            old(self).remaining().len() == 0 ==> r is None
                && final(self).remaining() == old(self).remaining(),
            old(self).remaining().len() > 0 ==> r == Some(old(self).remaining()[0])
                && final(self).remaining() == old(self).remaining().drop_first(),
    {
        self.0.pop_front()
    }
}

} // verus!
