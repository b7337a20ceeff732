//! Mutating iterators over a [`LinkedStack`].
//!
//! [`IterMutBook`] points at the node it will yield next and can edit the
//! chain behind that node. [`IterMutMy`] points at the link ahead of the
//! next node, which also lets it edit the chain at the current position,
//! even when the stack is empty or the iteration is over. Contracts are
//! stated over the sequence of elements from the current position to the
//! bottom of the stack.
use vstd::prelude::*;

use crate::linked_stack::Link;
use crate::linked_stack::LinkedStack;
use crate::linked_stack::Node;
use crate::linked_stack::link_seq;

verus! {

/// The mutating iterator handed out by [`LinkedStack::iter_mut`].
pub type IterMut<'a, T> = IterMutMy<'a, T>;

impl<T> LinkedStack<T> {
    /// Starts a mutating iteration over the stack, top first.
    pub fn iter_mut(&mut self) -> (it: IterMut<'_, T>)
        ensures
            it.remaining() == old(self)@,
            it.has_position(),
    {
        IterMut::new(self)
    }

    /// Starts a mutating iteration through an [`IterMutBook`].
    pub fn iter_mut_book(&mut self) -> (it: IterMutBook<'_, T>)
        ensures
            it.remaining() == old(self)@,
    {
        IterMutBook::new(self)
    }

    /// [`LinkedStack::iter_mut`] under the name of its iterator type.
    pub fn iter_mut_my(&mut self) -> (it: IterMutMy<'_, T>)
        ensures
            it.remaining() == old(self)@,
            it.has_position(),
    {
        IterMutMy::new(self)
    }
}

/// Joins `rest` to the bottom of the chain starting at `l`.
fn append_link<T>(l: &mut Link<T>, rest: Link<T>)
    ensures
        link_seq(*final(l)) == link_seq(*old(l)) + link_seq(rest),
    decreases *old(l),
{
    match l {
        None => {
            *l = rest;
            proof {
                assert(link_seq(*l) =~= link_seq(*old(l)) + link_seq(rest));
            }
        },
        Some(node) => {
            let ghost first: T = node.elem;
            let ghost oldnext: Link<T> = node.next;
            append_link(&mut node.next, rest);
            proof {
                assert(link_seq(*old(l)) =~= seq![first] + link_seq(oldnext));
                assert(link_seq(*l) =~= seq![first] + (link_seq(oldnext) + link_seq(rest)));
                assert(link_seq(*l) =~= link_seq(*old(l)) + link_seq(rest));
            }
        },
    }
}

/// A mutating iterator that points at the node it will yield next.
pub struct IterMutBook<'a, T>(pub(crate) Option<&'a mut Node<T>>);

impl<'a, T> IterMutBook<'a, T> {
    /// The elements from the current position to the bottom of the stack.
    pub closed spec fn remaining(self) -> Seq<T> {
        match self.0 {
            None => Seq::empty(),
            Some(node) => seq![node.elem] + link_seq(node.next),
        }
    }

    /// Starts at the top of the given stack.
    pub fn new(list: &'a mut LinkedStack<T>) -> (it: IterMutBook<'a, T>)
        ensures
            it.remaining() == old(list)@,
    {
        IterMutBook(
            match &mut list.head {
                None => None,
                Some(node) => Some(&mut **node),
            },
        )
    }

    /// Yields a mutable borrow of the next element, or `None` once the
    /// chain is exhausted.
    pub fn next(&mut self) -> (r: Option<&'a mut T>)
        ensures
            old(self).remaining().len() == 0 ==> r is None
                && final(self).remaining() == old(self).remaining(),
            old(self).remaining().len() > 0 ==> r is Some
                && *r.unwrap() == old(self).remaining()[0]
                && final(self).remaining() == old(self).remaining().drop_first(),
    {
        match self.0.take() {
            None => None,
            Some(node) => {
                self.0 = match &mut node.next {
                    None => None,
                    Some(next_node) => Some(&mut **next_node),
                };
                Some(&mut node.elem)
            },
        }
    }

    /// Borrows the element `next` would yield, without advancing.
    pub fn peek(&self) -> (r: Option<&T>)
        ensures
            self.remaining().len() == 0 ==> r is None,
            self.remaining().len() > 0 ==> r is Some && *r.unwrap() == self.remaining()[0],
    {
        match &self.0 {
            None => None,
            Some(node) => Some(&node.elem),
        }
    }

    /// Mutably borrows the element `next` would yield, without advancing.
    pub fn peek_mut(&mut self) -> (r: Option<&mut T>)
        ensures
            old(self).remaining().len() == 0 ==> r is None
                && final(self).remaining() == old(self).remaining(),
            old(self).remaining().len() > 0 ==> r is Some
                && *r.unwrap() == old(self).remaining()[0]
                && final(self).remaining()
                    == old(self).remaining().update(0, *final(r.unwrap())),
    {
        match &mut self.0 {
            None => None,
            Some(node) => Some(&mut node.elem),
        }
    }

    /// Detaches everything behind the current node into a new stack.
    pub fn split_after(&mut self) -> (r: LinkedStack<T>)
        ensures
            old(self).remaining().len() == 0 ==> r@ == Seq::<T>::empty()
                && final(self).remaining() == old(self).remaining(),
            old(self).remaining().len() > 0 ==> r@ == old(self).remaining().drop_first()
                && final(self).remaining() == old(self).remaining().take(1),
    {
        let r = LinkedStack {
            head: match &mut self.0 {
                None => None,
                Some(node) => node.next.take(),
            },
        };
        proof {
            if old(self).remaining().len() > 0 {
                assert(final(self).remaining() =~= old(self).remaining().take(1));
            }
        }
        r
    }

    /// Inserts one element right behind the current node; fails with `None`
    /// when there is no current node.
    pub fn insert_after(&mut self, elem: T) -> (r: Option<()>)
        ensures
            old(self).remaining().len() == 0 ==> r is None
                && final(self).remaining() == old(self).remaining(),
            old(self).remaining().len() > 0 ==> r is Some
                && final(self).remaining() == old(self).remaining().insert(1, elem),
    {
        match &mut self.0 {
            None => None,
            Some(node) => {
                let next = node.next.take();
                node.next = Some(Box::new(Node { elem, next }));
                proof {
                    assert(final(self).remaining()
                        =~= old(self).remaining().insert(1, elem));
                }
                Some(())
            },
        }
    }

    /// Removes the node right behind the current one and returns its
    /// element; `None` when no such node exists.
    pub fn delete_after(&mut self) -> (r: Option<T>)
        ensures
            old(self).remaining().len() <= 1 ==> r is None
                && final(self).remaining() == old(self).remaining(),
            old(self).remaining().len() > 1 ==> r == Some(old(self).remaining()[1])
                && final(self).remaining() == old(self).remaining().remove(1),
    {
        match &mut self.0 {
            None => None,
            Some(node) => {
                match node.next.take() {
                    None => None,
                    Some(boxed) => {
                        let boxed = *boxed;
                        node.next = boxed.next;
                        proof {
                            assert(final(self).remaining()
                                =~= old(self).remaining().remove(1));
                        }
                        Some(boxed.elem)
                    },
                }
            },
        }
    }

    /// Replaces everything behind the current node by `join` and returns
    /// what was there; without a current node, `join` is handed back.
    pub fn replace_after(&mut self, join: LinkedStack<T>) -> (r: LinkedStack<T>)
        ensures
            old(self).remaining().len() == 0 ==> r@ == join@
                && final(self).remaining() == old(self).remaining(),
            old(self).remaining().len() > 0 ==> r@ == old(self).remaining().drop_first()
                && final(self).remaining() == old(self).remaining().take(1) + join@,
    {
        match &mut self.0 {
            None => join,
            Some(node) => {
                let mut input = join;
                let mut chain = input.head.take();
                core::mem::swap(&mut node.next, &mut chain);
                proof {
                    assert(final(self).remaining()
                        =~= old(self).remaining().take(1) + join@);
                }
                LinkedStack { head: chain }
            },
        }
    }

    /// Splices the whole of `join` in right behind the current node; fails
    /// with `None`, dropping `join`, when there is no current node.
    pub fn insert_list_after(&mut self, join: LinkedStack<T>) -> (r: Option<()>)
        ensures
            old(self).remaining().len() == 0 ==> r is None
                && final(self).remaining() == old(self).remaining(),
            old(self).remaining().len() > 0 ==> r is Some
                && final(self).remaining()
                    == old(self).remaining().take(1) + join@ + old(self).remaining().drop_first(),
    {
        match &mut self.0 {
            None => None,
            Some(node) => {
                let mut input = join;
                let rest = node.next.take();
                node.next = input.head.take();
                append_link(&mut node.next, rest);
                proof {
                    assert(final(self).remaining()
                        =~= old(self).remaining().take(1) + join@
                            + old(self).remaining().drop_first());
                }
                Some(())
            },
        }
    }
}

/// A mutating iterator that points at the link ahead of the next node.
pub struct IterMutMy<'a, T>(pub(crate) Option<&'a mut Link<T>>);

impl<'a, T> IterMutMy<'a, T> {
    /// The elements from the current position to the bottom of the stack.
    pub closed spec fn remaining(self) -> Seq<T> {
        match self.0 {
            None => Seq::empty(),
            Some(l) => link_seq(*l),
        }
    }

    /// Whether the iterator still holds a link it can edit the chain at.
    /// This holds from construction on; every operation preserves it.
    pub closed spec fn has_position(self) -> bool {
        self.0 is Some
    }

    /// Starts at the top of the given stack.
    pub fn new(list: &'a mut LinkedStack<T>) -> (it: IterMutMy<'a, T>)
        ensures
            it.remaining() == old(list)@,
            it.has_position(),
    {
        IterMutMy(Some(&mut list.head))
    }

    /// Yields a mutable borrow of the next element, or `None` once the
    /// chain is exhausted.
    pub fn next(&mut self) -> (r: Option<&'a mut T>)
        ensures
            final(self).has_position() == old(self).has_position(),
            old(self).remaining().len() == 0 ==> r is None
                && final(self).remaining() == old(self).remaining(),
            old(self).remaining().len() > 0 ==> r is Some
                && *r.unwrap() == old(self).remaining()[0]
                && final(self).remaining() == old(self).remaining().drop_first(),
    {
        match self.0.take() {
            None => None,
            Some(l) => match l {
                None => {
                    self.0 = Some(l);
                    None
                },
                Some(node) => {
                    self.0 = Some(&mut node.next);
                    Some(&mut node.elem)
                },
            },
        }
    }

    /// Borrows the element `next` would yield, without advancing.
    pub fn peek(&self) -> (r: Option<&T>)
        ensures
            self.remaining().len() == 0 ==> r is None,
            self.remaining().len() > 0 ==> r is Some && *r.unwrap() == self.remaining()[0],
    {
        match &self.0 {
            None => None,
            Some(l) => match &**l {
                None => None,
                Some(node) => Some(&node.elem),
            },
        }
    }

    /// Mutably borrows the element `next` would yield, without advancing.
    pub fn peek_mut(&mut self) -> (r: Option<&mut T>)
        ensures
            old(self).remaining().len() == 0 ==> r is None
                && final(self).remaining() == old(self).remaining(),
            old(self).remaining().len() > 0 ==> r is Some
                && *r.unwrap() == old(self).remaining()[0]
                && final(self).remaining()
                    == old(self).remaining().update(0, *final(r.unwrap())),
    {
        match &mut self.0 {
            None => None,
            Some(l) => match &mut **l {
                None => None,
                Some(node) => Some(&mut node.elem),
            },
        }
    }

    /// Detaches everything from the current position on into a new stack.
    pub fn split_at(&mut self) -> (r: LinkedStack<T>)
        ensures
            final(self).has_position() == old(self).has_position(),
            r@ == old(self).remaining(),
            final(self).remaining() == Seq::<T>::empty(),
    {
        match &mut self.0 {
            None => LinkedStack { head: None },
            Some(l) => LinkedStack { head: l.take() },
        }
    }

    /// Inserts one element at the current position; the new element is the
    /// next one yielded.
    pub fn insert_at(&mut self, elem: T)
        requires
            old(self).has_position(),
        ensures
            final(self).has_position(),
            final(self).remaining() == seq![elem] + old(self).remaining(),
    {
        match &mut self.0 {
            None => {},
            Some(l) => {
                let next = l.take();
                **l = Some(Box::new(Node { elem, next }));
            },
        }
    }

    /// Removes the node at the current position and returns its element;
    /// `None` when the chain is exhausted.
    pub fn delete_at(&mut self) -> (r: Option<T>)
        ensures
            final(self).has_position() == old(self).has_position(),
            old(self).remaining().len() == 0 ==> r is None
                && final(self).remaining() == old(self).remaining(),
            old(self).remaining().len() > 0 ==> r == Some(old(self).remaining()[0])
                && final(self).remaining() == old(self).remaining().drop_first(),
    {
        match &mut self.0 {
            None => None,
            Some(l) => match l.take() {
                None => None,
                Some(boxed) => {
                    let boxed = *boxed;
                    **l = boxed.next;
                    Some(boxed.elem)
                },
            },
        }
    }

    /// Replaces everything from the current position on by `join` and
    /// returns what was there; without a position, `join` is handed back.
    pub fn replace_at(&mut self, join: LinkedStack<T>) -> (r: LinkedStack<T>)
        ensures
            final(self).has_position() == old(self).has_position(),
            !old(self).has_position() ==> r@ == join@
                && final(self).remaining() == old(self).remaining(),
            old(self).has_position() ==> r@ == old(self).remaining()
                && final(self).remaining() == join@,
    {
        match &mut self.0 {
            None => join,
            Some(l) => {
                let mut input = join;
                let mut chain = input.head.take();
                core::mem::swap(&mut **l, &mut chain);
                LinkedStack { head: chain }
            },
        }
    }

    /// Splices the whole of `join` in at the current position; fails with
    /// `None`, dropping `join`, when the iterator holds no link.
    pub fn insert_list_at(&mut self, join: LinkedStack<T>) -> (r: Option<()>)
        ensures
            final(self).has_position() == old(self).has_position(),
            !old(self).has_position() ==> r is None
                && final(self).remaining() == old(self).remaining(),
            old(self).has_position() ==> r is Some
                && final(self).remaining() == join@ + old(self).remaining(),
    {
        match &mut self.0 {
            None => None,
            Some(l) => {
                let mut input = join;
                let rest = l.take();
                **l = input.head.take();
                append_link(&mut **l, rest);
                Some(())
            },
        }
    }
}

} // verus!
