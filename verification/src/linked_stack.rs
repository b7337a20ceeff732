//! A singly-linked stack.
//!
//! [`LinkedStack`] owns a chain of boxed nodes; the head of the chain is the
//! top of the stack. Its view is the sequence of elements from the top down,
//! so `self@[0]` is the element a [`LinkedStack::pop`] would return.
//!
//! Besides the constant-time stack operations the type also offers the
//! back-end operations `push_back`, `pop_back` and `peek_back`, which walk
//! the whole chain, and an in-place [`reverse`]. The `*_verbose` methods
//! repeat the plain ones with spelled-out control flow and meet the same
//! contracts.
use vstd::prelude::*;

pub mod iter;
pub mod iter_mut;
pub mod into_iter;

verus! {

pub(crate) type Link<T> = Option<Box<Node<T>>>;

pub(crate) struct Node<T> {
    pub(crate) elem: T,
    pub(crate) next: Link<T>,
}

/// A singly-linked stack; the head node is the top.
pub struct LinkedStack<T> {
    pub(crate) head: Link<T>,
}

/// The sequence of elements hanging off a link, nearest first.
pub(crate) open(crate) spec fn link_seq<T>(l: Link<T>) -> Seq<T>
    decreases l,
{
    match l {
        None => Seq::empty(),
        Some(node) => seq![node.elem] + link_seq(node.next),
    }
}

impl<T> View for LinkedStack<T> {
    type V = Seq<T>;

    closed spec fn view(&self) -> Seq<T> {
        link_seq(self.head)
    }
}

impl<T> LinkedStack<T> {
    /// Creates an empty stack.
    pub fn new() -> (s: Self)
        ensures
            s@ == Seq::<T>::empty(),
    {
        LinkedStack { head: None }
    }

    /// Pushes an element on top of the stack.
    pub fn push(&mut self, elem: T)
        ensures
            final(self)@ == seq![elem] + old(self)@,
    {
        let head = self.head.take();
        self.head = Some(Box::new(Node { elem, next: head }));
    }

    /// Pops the top element; an empty stack yields `None` and is unchanged.
    pub fn pop(&mut self) -> (r: Option<T>)
        ensures
            old(self)@.len() == 0 ==> r is None && final(self)@ == old(self)@,
            old(self)@.len() > 0 ==> r == Some(old(self)@[0])
                && final(self)@ == old(self)@.drop_first(),
    {
        match self.head.take() {
            None => None,
            Some(node) => {
                let node = *node;
                self.head = node.next;
                Some(node.elem)
            },
        }
    }

    /// Borrows the top element; `None` on an empty stack.
    pub fn peek(&self) -> (r: Option<&T>)
        ensures
            self@.len() == 0 ==> r is None,
            self@.len() > 0 ==> r == Some(&self@[0]),
    {
        match &self.head {
            None => None,
            Some(node) => Some(&node.elem),
        }
    }

    /// Mutably borrows the top element; `None` on an empty stack.
    pub fn peek_mut(&mut self) -> (r: Option<&mut T>)
        ensures
            old(self)@.len() == 0 ==> r is None && final(self)@ == old(self)@,
            old(self)@.len() > 0 ==> r is Some && *r.unwrap() == old(self)@[0]
                && final(self)@ == old(self)@.update(0, *final(r.unwrap())),
    {
        match &mut self.head {
            None => None,
            Some(node) => Some(&mut node.elem),
        }
    }

    /// Borrows the element at the bottom of the stack; `None` when empty.
    pub fn peek_back(&self) -> (r: Option<&T>)
        ensures
            self@.len() == 0 ==> r is None,
            self@.len() > 0 ==> r is Some && *r.unwrap() == self@.last(),
    {
        peek_back_link(&self.head)
    }

    /// Places an element below the current bottom of the stack.
    pub fn push_back(&mut self, elem: T)
        ensures
            final(self)@ == old(self)@.push(elem),
    {
        push_back_link(&mut self.head, elem);
    }

    /// Removes the bottom element; an empty stack yields `None` and is
    /// unchanged.
    pub fn pop_back(&mut self) -> (r: Option<T>)
        ensures
            old(self)@.len() == 0 ==> r is None && final(self)@ == old(self)@,
            old(self)@.len() > 0 ==> r == Some(old(self)@.last())
                && final(self)@ == old(self)@.drop_last(),
    {
        pop_back_link(&mut self.head)
    }
}

fn peek_back_link<T>(l: &Link<T>) -> (r: Option<&T>)
    ensures
        link_seq(*l).len() == 0 ==> r is None,
        link_seq(*l).len() > 0 ==> r is Some && *r.unwrap() == link_seq(*l).last(),
    decreases *l,
{
    match l {
        None => None,
        Some(node) => {
            match &node.next {
                None => {
                    proof {
                        assert(link_seq(node.next) =~= Seq::<T>::empty());
                        assert(link_seq(*l) =~= seq![node.elem]);
                    }
                    Some(&node.elem)
                },
                Some(_) => {
                    let r = peek_back_link(&node.next);
                    proof {
                        assert(link_seq(*l).last() == link_seq(node.next).last());
                    }
                    r
                },
            }
        },
    }
}

fn push_back_link<T>(l: &mut Link<T>, elem: T)
    ensures
        link_seq(*final(l)) == link_seq(*old(l)).push(elem),
    decreases *old(l),
{
    match l {
        None => {
            *l = Some(Box::new(Node { elem, next: None }));
            proof {
                assert(link_seq(*l) =~= link_seq(*old(l)).push(elem));
            }
        },
        Some(node) => {
            push_back_link(&mut node.next, elem);
            proof {
                assert(link_seq(*final(l)) =~= link_seq(*old(l)).push(elem));
            }
        },
    }
}

fn pop_back_link<T>(l: &mut Link<T>) -> (r: Option<T>)
    ensures
        link_seq(*old(l)).len() == 0 ==> r is None && link_seq(*final(l)) == link_seq(*old(l)),
        link_seq(*old(l)).len() > 0 ==> r == Some(link_seq(*old(l)).last())
            && link_seq(*final(l)) == link_seq(*old(l)).drop_last(),
    decreases *old(l),
{
    match l {
        None => None,
        Some(node) => {
            match &node.next {
                None => {
                    proof {
                        assert(link_seq(node.next) =~= Seq::<T>::empty());
                        assert(link_seq(*l) =~= seq![node.elem]);
                        assert(link_seq(*l).drop_last() =~= Seq::<T>::empty());
                    }
                    let node = l.take().unwrap();
                    Some(node.elem)
                },
                Some(_) => {
                    let ghost first: T = node.elem;
                    let ghost oldnext: Link<T> = node.next;
                    let r = pop_back_link(&mut node.next);
                    proof {
                        assert(link_seq(*old(l)) =~= seq![first] + link_seq(oldnext));
                        assert(link_seq(oldnext).len() > 0);
                        assert(link_seq(*old(l)).last() == link_seq(oldnext).last());
                        assert(link_seq(*l) =~= seq![first] + link_seq(oldnext).drop_last());
                        assert(link_seq(*l) =~= link_seq(*old(l)).drop_last());
                    }
                    r
                },
            }
        },
    }
}

impl<T> Drop for LinkedStack<T> {
    /// Tears the chain down iteratively, one node per step, so that
    /// dropping a long stack cannot exhaust the call stack through
    /// node-by-node recursion.
    fn drop(&mut self)
        opens_invariants none
        no_unwind
    {
        let mut link: Link<T> = None;
        core::mem::swap(&mut self.head, &mut link);
        loop
            decreases link_seq(link).len(),
        {
            let mut taken: Link<T> = None;
            core::mem::swap(&mut link, &mut taken);
            match taken {
                None => { break; },
                Some(mut boxed) => {
                    core::mem::swap(&mut link, &mut boxed.next);
                },
            }
        }
    }
}

/// Reverses the stack in place: the former top becomes the bottom.
pub fn reverse<T>(ls: &mut LinkedStack<T>)
    ensures
        final(ls)@ == old(ls)@.reverse(),
{
    let ghost orig: Seq<T> = ls@;
    let mut oldhead = ls.head.take();
    let mut head: Link<T> = None;
    while oldhead.is_some()
        invariant
            link_seq(oldhead).reverse() + link_seq(head) == orig.reverse(),
        decreases link_seq(oldhead).len(),
    {
        let mut node = oldhead.take().unwrap();
        oldhead = node.next.take();
        node.next = head.take();
        proof {
            assert(link_seq(Some(node)) =~= seq![node.elem] + link_seq(node.next));
            assert((seq![node.elem] + link_seq(oldhead)).reverse()
                =~= link_seq(oldhead).reverse() + seq![node.elem]);
        }
        head = Some(node);
        proof {
            assert(link_seq(oldhead).reverse() + link_seq(head) =~= orig.reverse());
        }
    }
    proof {
        assert(link_seq(oldhead) =~= Seq::<T>::empty());
        assert(link_seq(oldhead).reverse() =~= Seq::<T>::empty());
        assert(link_seq(head) =~= orig.reverse());
    }
    ls.head = head;
}

impl<T> LinkedStack<T> {
    /// [`LinkedStack::peek`] with the combinators spelled out as a `match`.
    pub fn peek_verbose(&self) -> (r: Option<&T>)
        ensures
            self@.len() == 0 ==> r is None,
            self@.len() > 0 ==> r == Some(&self@[0]),
    {
        match self.head {
            Some(ref node) => Some(&node.elem),
            None => None,
        }
    }

    /// [`LinkedStack::push`] with the head swap spelled out.
    pub fn push_verbose(&mut self, t: T)
        ensures
            final(self)@ == seq![t] + old(self)@,
    {
        let mut head: Link<T> = None;
        core::mem::swap(&mut self.head, &mut head);
        let new_node = Box::new(Node { elem: t, next: head });
        self.head = Some(new_node);
    }

    /// [`LinkedStack::pop`] with the head swap spelled out.
    pub fn pop_verbose(&mut self) -> (r: Option<T>)
        ensures
            old(self)@.len() == 0 ==> r is None && final(self)@ == old(self)@,
            old(self)@.len() > 0 ==> r == Some(old(self)@[0])
                && final(self)@ == old(self)@.drop_first(),
    {
        let mut head: Link<T> = None;
        core::mem::swap(&mut self.head, &mut head);
        match head {
            Some(node) => {
                let node = *node;
                self.head = node.next;
                Some(node.elem)
            },
            None => None,
        }
    }

    /// [`LinkedStack::pop_back`] through the recursive helper.
    pub fn pop_back_verbose(&mut self) -> (r: Option<T>)
        ensures
            old(self)@.len() == 0 ==> r is None && final(self)@ == old(self)@,
            old(self)@.len() > 0 ==> r == Some(old(self)@.last())
                && final(self)@ == old(self)@.drop_last(),
    {
        pop_back_recursive_verbose(&mut self.head)
    }
}

fn pop_back_recursive_verbose<T>(link: &mut Link<T>) -> (r: Option<T>)
    ensures
        link_seq(*old(link)).len() == 0 ==> r is None
            && link_seq(*final(link)) == link_seq(*old(link)),
        link_seq(*old(link)).len() > 0 ==> r == Some(link_seq(*old(link)).last())
            && link_seq(*final(link)) == link_seq(*old(link)).drop_last(),
    decreases *old(link),
{
    match link {
        None => None,
        Some(sub_node) => {
            let sub_ret = pop_back_recursive_verbose(&mut sub_node.next);
            match sub_ret {
                Some(t) => {
                    proof {
                        assert(link_seq(*final(link)) =~= link_seq(*old(link)).drop_last());
                    }
                    Some(t)
                },
                None => {
                    let current_node = link.take();
                    match current_node {
                        Some(n) => Some(n.elem),
                        None => None,
                    }
                },
            }
        },
    }
}

} // verus!
