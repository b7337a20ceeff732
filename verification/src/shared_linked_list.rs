//! A persistent singly-linked list with shared tails.
//!
//! [`SharedLinkedList`] never mutates a node. [`SharedLinkedList::append`]
//! builds a new head in front of the old list and [`SharedLinkedList::tail`]
//! steps past the head; both return a new list whose chain is shared with
//! the old one through reference counting. The view is the sequence of
//! elements from the head down.
use std::rc::Rc;

use vstd::prelude::*;

verus! {

type Link<T> = Option<Rc<Node<T>>>;

struct Node<T> {
    elem: T,
    next: Link<T>,
}

/// A persistent singly-linked list.
pub struct SharedLinkedList<T> {
    head: Link<T>,
}

/// The sequence of elements hanging off a link, nearest first.
spec fn link_seq<T>(l: Link<T>) -> Seq<T>
    decreases l,
{
    match l {
        None => Seq::empty(),
        Some(node) => seq![node.elem] + link_seq(node.next),
    }
}

fn clone_link<T>(l: &Link<T>) -> (r: Link<T>)
    ensures
        link_seq(r) == link_seq(*l),
{
    match l {
        None => None,
        Some(node) => Some(Rc::clone(node)),
    }
}

impl<T> View for SharedLinkedList<T> {
    type V = Seq<T>;

    closed spec fn view(&self) -> Seq<T> {
        link_seq(self.head)
    }
}

impl<T> SharedLinkedList<T> {
    /// Creates an empty list.
    pub fn new() -> (s: Self)
        ensures
            s@ == Seq::<T>::empty(),
    {
        SharedLinkedList { head: None }
    }

    /// Returns a new list with `elem` in front of everything in `self`.
    /// `self` is untouched and keeps sharing the old chain.
    pub fn append(&self, elem: T) -> (r: Self)
        ensures
            r@ == seq![elem] + self@,
    {
        SharedLinkedList { head: Some(Rc::new(Node { elem, next: clone_link(&self.head) })) }
    }

    /// Returns the list one step down the chain; the tail of an empty list
    /// is empty again.
    pub fn tail(&self) -> (r: Self)
        ensures
            self@.len() == 0 ==> r@ == Seq::<T>::empty(),
            self@.len() > 0 ==> r@ == self@.drop_first(),
    {
        match &self.head {
            None => SharedLinkedList { head: None },
            Some(node) => SharedLinkedList { head: clone_link(&node.next) },
        }
    }

    /// Borrows the head element; `None` on an empty list.
    pub fn head(&self) -> (r: Option<&T>)
        ensures
            self@.len() == 0 ==> r is None,
            self@.len() > 0 ==> r is Some && *r.unwrap() == self@[0],
    {
        match &self.head {
            None => None,
            Some(node) => Some(&node.elem),
        }
    }

    /// Starts a borrowing iteration over the list, head first.
    pub fn iter(&self) -> (it: Iter<'_, T>)
        ensures
            it.remaining() == self@,
    {
        Iter(self.head.as_ref())
    }
}

/// A borrowing iterator over a [`SharedLinkedList`], head first.
pub struct Iter<'a, T>(Option<&'a Rc<Node<T>>>);

impl<'a, T> Iter<'a, T> {
    /// The elements not yet yielded, nearest first.
    pub closed spec fn remaining(self) -> Seq<T> {
        match self.0 {
            None => Seq::empty(),
            Some(node) => seq![node.elem] + link_seq(node.next),
        }
    }

    /// Yields the next element, or `None` once the chain is exhausted.
    pub fn next(&mut self) -> (r: Option<&'a T>)
        ensures
            old(self).remaining().len() == 0 ==> r is None
                && final(self).remaining() == old(self).remaining(),
            old(self).remaining().len() > 0 ==> r is Some
                && *r.unwrap() == old(self).remaining()[0]
                && final(self).remaining() == old(self).remaining().drop_first(),
    {
        match self.0 {
            None => None,
            Some(node) => {
                self.0 = node.next.as_ref();
                Some(&node.elem)
            },
        }
    }

    /// Borrows the element `next` would yield, without advancing.
    pub fn peek(&self) -> (r: Option<&'a T>)
        ensures
            self.remaining().len() == 0 ==> r is None,
            self.remaining().len() > 0 ==> r is Some && *r.unwrap() == self.remaining()[0],
    {
        match self.0 {
            None => None,
            Some(node) => Some(&node.elem),
        }
    }

    /// Returns a new list that starts at the current position and shares
    /// the rest of the chain.
    pub fn fork(&self) -> (r: SharedLinkedList<T>)
        ensures
            r@ == self.remaining(),
    {
        match self.0 {
            None => SharedLinkedList { head: None },
            Some(node) => SharedLinkedList { head: Some(Rc::clone(node)) },
        }
    }
}

} // verus!
