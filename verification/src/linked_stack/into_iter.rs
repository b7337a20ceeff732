//! Consuming iterators over a [`LinkedStack`].
//!
//! Both types take the stack by value and drain it from the top down.
//! [`IntoIterBook`] keeps the whole stack and pops; [`IntoIterVerbose`]
//! keeps only the remaining chain of nodes.
use vstd::prelude::*;

use crate::linked_stack::Link;
use crate::linked_stack::LinkedStack;
use crate::linked_stack::link_seq;

verus! {

/// The iterator a [`LinkedStack`] is drained through.
pub type IntoIter<T> = IntoIterBook<T>;

impl<T> LinkedStack<T> {
    /// Consumes the stack and yields its elements from the top down.
    pub fn into_iter(self) -> (it: IntoIter<T>)
        ensures
            it.remaining() == self@,
    {
        IntoIter::new(self)
    }

    /// [`LinkedStack::into_iter`] through the stack-keeping iterator.
    pub fn into_iter_book(self) -> (it: IntoIterBook<T>)
        ensures
            it.remaining() == self@,
    {
        IntoIterBook::new(self)
    }

    /// [`LinkedStack::into_iter`] through the chain-keeping iterator.
    pub fn into_iter_verbose(self) -> (it: IntoIterVerbose<T>)
        ensures
            it.remaining() == self@,
    {
        IntoIterVerbose::new(self)
    }
}

/// A consuming iterator that keeps the remaining elements as a stack.
pub struct IntoIterBook<T>(pub(crate) LinkedStack<T>);

impl<T> IntoIterBook<T> {
    /// The elements not yet yielded, nearest first.
    pub closed spec fn remaining(self) -> Seq<T> {
        self.0@
    }

    /// Takes over the given stack.
    pub fn new(list: LinkedStack<T>) -> (it: Self)
        ensures
            it.remaining() == list@,
    {
        IntoIterBook(list)
    }

    /// Yields the next element, or `None` once the stack is drained.
    pub fn next(&mut self) -> (r: Option<T>)
        ensures
            old(self).remaining().len() == 0 ==> r is None
                && final(self).remaining() == old(self).remaining(),
            old(self).remaining().len() > 0 ==> r == Some(old(self).remaining()[0])
                && final(self).remaining() == old(self).remaining().drop_first(),
    {
        self.0.pop()
    }
}

/// A consuming iterator that keeps only the remaining chain.
pub struct IntoIterVerbose<T> {
    next: Link<T>,
}

impl<T> IntoIterVerbose<T> {
    /// The elements not yet yielded, nearest first.
    pub closed spec fn remaining(self) -> Seq<T> {
        link_seq(self.next)
    }

    /// Takes over the chain of the given stack.
    pub fn new(list: LinkedStack<T>) -> (it: Self)
        ensures
            it.remaining() == list@,
    {
        let mut list = list;
        let head = list.head.take();
        IntoIterVerbose { next: head }
    }

    /// Yields the next element, or `None` once the chain is drained.
    pub fn next(&mut self) -> (r: Option<T>)
        ensures
            old(self).remaining().len() == 0 ==> r is None
                && final(self).remaining() == old(self).remaining(),
            old(self).remaining().len() > 0 ==> r == Some(old(self).remaining()[0])
                && final(self).remaining() == old(self).remaining().drop_first(),
    {
        match self.next.take() {
            None => None,
            Some(node) => {
                let node = *node;
                self.next = node.next;
                Some(node.elem)
            },
        }
    }
}

} // verus!
