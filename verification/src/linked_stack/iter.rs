//! Borrowing iterators over a [`LinkedStack`].
//!
//! All three types walk the chain from the top down and yield shared
//! references. [`IterMy`] and [`IterVerbose`] keep a reference to a link,
//! [`IterBook`] a reference to a node; their contracts are identical, stated
//! over the sequence of elements still to be yielded.
use vstd::prelude::*;

use crate::linked_stack::Link;
use crate::linked_stack::LinkedStack;
use crate::linked_stack::Node;
use crate::linked_stack::link_seq;

verus! {

/// The iterator handed out by [`LinkedStack::iter`].
pub type Iter<'a, T> = IterMy<'a, T>;

impl<T> LinkedStack<T> {
    /// Starts a borrowing iteration over the stack, top first.
    pub fn iter(&self) -> (it: Iter<'_, T>)
        ensures
            it.remaining() == self@,
    {
        Iter::new(self)
    }

    /// [`LinkedStack::iter`] under the name of its iterator type.
    pub fn iter_my(&self) -> (it: IterMy<'_, T>)
        ensures
            it.remaining() == self@,
    {
        IterMy::new(self)
    }

    /// Starts a borrowing iteration through an [`IterBook`].
    pub fn iter_book(&self) -> (it: IterBook<'_, T>)
        ensures
            it.remaining() == self@,
    {
        IterBook::new(self)
    }

    /// Starts a borrowing iteration through an [`IterVerbose`].
    pub fn iter_verbose(&self) -> (it: IterVerbose<'_, T>)
        ensures
            it.remaining() == self@,
    {
        IterVerbose::new(self)
    }
}

/// A borrowing iterator that holds on to the link it will follow next.
pub struct IterMy<'a, T>(pub(crate) &'a Link<T>);

impl<'a, T> IterMy<'a, T> {
    /// The elements not yet yielded, nearest first.
    pub closed spec fn remaining(self) -> Seq<T> {
        link_seq(*self.0)
    }

    /// Starts at the top of the given stack.
    pub fn new(list: &LinkedStack<T>) -> (it: IterMy<'_, T>)
        ensures
            it.remaining() == list@,
    {
        IterMy(&list.head)
    }

    /// Yields the next element, or `None` once the chain is exhausted.
    pub fn next(&mut self) -> (r: Option<&'a T>)
        ensures
            old(self).remaining().len() == 0 ==> r is None
                && final(self).remaining() == old(self).remaining(),
            old(self).remaining().len() > 0 ==> r is Some
                && *r.unwrap() == old(self).remaining()[0]
                && final(self).remaining() == old(self).remaining().drop_first(),
    {
        match self.0 {
            None => None,
            Some(node) => {
                self.0 = &node.next;
                Some(&node.elem)
            },
        }
    }

    /// Borrows the element `next` would yield, without advancing.
    pub fn peek(&self) -> (r: Option<&T>)
        ensures
            self.remaining().len() == 0 ==> r is None,
            self.remaining().len() > 0 ==> r is Some && *r.unwrap() == self.remaining()[0],
    {
        match self.0 {
            None => None,
            Some(node) => Some(&node.elem),
        }
    }
}

/// A borrowing iterator that holds on to the node it will yield next.
pub struct IterBook<'a, T> {
    next: Option<&'a Node<T>>,
}

impl<'a, T> IterBook<'a, T> {
    /// The elements not yet yielded, nearest first.
    pub closed spec fn remaining(self) -> Seq<T> {
        match self.next {
            None => Seq::empty(),
            Some(node) => seq![node.elem] + link_seq(node.next),
        }
    }

    /// Starts at the top of the given stack.
    pub fn new(list: &LinkedStack<T>) -> (it: IterBook<'_, T>)
        ensures
            it.remaining() == list@,
    {
        IterBook {
            next: match &list.head {
                None => None,
                Some(node) => Some(&**node),
            },
        }
    }

    /// Yields the next element, or `None` once the chain is exhausted.
    pub fn next(&mut self) -> (r: Option<&'a T>)
        ensures
            old(self).remaining().len() == 0 ==> r is None
                && final(self).remaining() == old(self).remaining(),
            old(self).remaining().len() > 0 ==> r is Some
                && *r.unwrap() == old(self).remaining()[0]
                && final(self).remaining() == old(self).remaining().drop_first(),
    {
        match self.next {
            Some(node) => {
                self.next = match &node.next {
                    None => None,
                    Some(next_node) => Some(&**next_node),
                };
                Some(&node.elem)
            },
            None => None,
        }
    }

    /// Borrows the element `next` would yield, without advancing.
    pub fn peek(&self) -> (r: Option<&T>)
        ensures
            self.remaining().len() == 0 ==> r is None,
            self.remaining().len() > 0 ==> r is Some && *r.unwrap() == self.remaining()[0],
    {
        match self.next {
            Some(node) => Some(&node.elem),
            None => None,
        }
    }
}

/// A borrowing iterator over a link, with the combinators spelled out.
pub struct IterVerbose<'a, T> {
    next: &'a Link<T>,
}

impl<'a, T> IterVerbose<'a, T> {
    /// The elements not yet yielded, nearest first.
    pub closed spec fn remaining(self) -> Seq<T> {
        link_seq(*self.next)
    }

    /// Starts at the top of the given stack.
    pub fn new(list: &LinkedStack<T>) -> (it: IterVerbose<'_, T>)
        ensures
            it.remaining() == list@,
    {
        IterVerbose { next: &list.head }
    }

    /// Yields the next element, or `None` once the chain is exhausted.
    pub fn next(&mut self) -> (r: Option<&'a T>)
        ensures
            old(self).remaining().len() == 0 ==> r is None
                && final(self).remaining() == old(self).remaining(),
            old(self).remaining().len() > 0 ==> r is Some
                && *r.unwrap() == old(self).remaining()[0]
                && final(self).remaining() == old(self).remaining().drop_first(),
    {
        match self.next {
            Some(node) => {
                self.next = &node.next;
                Some(&node.elem)
            },
            None => None,
        }
    }

    /// Borrows the element `next` would yield, without advancing.
    pub fn peek(&self) -> (r: Option<&T>)
        ensures
            self.remaining().len() == 0 ==> r is None,
            self.remaining().len() > 0 ==> r is Some && *r.unwrap() == self.remaining()[0],
    {
        match self.next {
            Some(node) => Some(&node.elem),
            None => None,
        }
    }
}

} // verus!
