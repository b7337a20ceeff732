//! A list with a movable seam, built from two stacks.
//!
//! [`List`] keeps the elements left of the seam on one stack and the
//! elements right of it on another, both with their tops at the seam.
//! Pushing and popping happens at the seam, and [`List::go_left`] /
//! [`List::go_right`] move the seam one element over by carrying the top of
//! one stack onto the other. The views `left()` and `right()` give the two
//! stacks seam-first.
use vstd::prelude::*;

use crate::linked_stack::LinkedStack as Stack;

verus! {

/// A two-stack list; both tops sit at the seam.
pub struct List<T> {
    left: Stack<T>,
    right: Stack<T>,
}

impl<T> List<T> {
    /// The elements left of the seam, nearest first.
    pub closed spec fn left(self) -> Seq<T> {
        self.left@
    }

    /// The elements right of the seam, nearest first.
    pub closed spec fn right(self) -> Seq<T> {
        self.right@
    }

    /// Creates an empty list with the seam in the middle of nothing.
    pub fn new() -> (s: Self)
        ensures
            s.left() == Seq::<T>::empty(),
            s.right() == Seq::<T>::empty(),
    {
        List { left: Stack::new(), right: Stack::new() }
    }

    /// Pushes an element just left of the seam.
    pub fn push_left(&mut self, elem: T)
        ensures
            final(self).left() == seq![elem] + old(self).left(),
            final(self).right() == old(self).right(),
    {
        self.left.push(elem)
    }

    /// Pushes an element just right of the seam.
    pub fn push_right(&mut self, elem: T)
        ensures
            final(self).right() == seq![elem] + old(self).right(),
            final(self).left() == old(self).left(),
    {
        self.right.push(elem)
    }

    /// Pops the element just left of the seam, if any.
    pub fn pop_left(&mut self) -> (r: Option<T>)
        ensures
            final(self).right() == old(self).right(),
            old(self).left().len() == 0 ==> r is None
                && final(self).left() == old(self).left(),
            old(self).left().len() > 0 ==> r == Some(old(self).left()[0])
                && final(self).left() == old(self).left().drop_first(),
    {
        self.left.pop()
    }

    /// Pops the element just right of the seam, if any.
    pub fn pop_right(&mut self) -> (r: Option<T>)
        ensures
            final(self).left() == old(self).left(),
            old(self).right().len() == 0 ==> r is None
                && final(self).right() == old(self).right(),
            old(self).right().len() > 0 ==> r == Some(old(self).right()[0])
                && final(self).right() == old(self).right().drop_first(),
    {
        self.right.pop()
    }

    /// Borrows the element just left of the seam.
    pub fn peek_left(&self) -> (r: Option<&T>)
        ensures
            self.left().len() == 0 ==> r is None,
            self.left().len() > 0 ==> r is Some && *r.unwrap() == self.left()[0],
    {
        self.left.peek()
    }

    /// Borrows the element just right of the seam.
    pub fn peek_right(&self) -> (r: Option<&T>)
        ensures
            self.right().len() == 0 ==> r is None,
            self.right().len() > 0 ==> r is Some && *r.unwrap() == self.right()[0],
    {
        self.right.peek()
    }

    /// Mutably borrows the element just left of the seam.
    pub fn peek_left_mut(&mut self) -> (r: Option<&mut T>)
        ensures
            final(self).right() == old(self).right(),
            old(self).left().len() == 0 ==> r is None
                && final(self).left() == old(self).left(),
            old(self).left().len() > 0 ==> r is Some
                && *r.unwrap() == old(self).left()[0]
                && final(self).left() == old(self).left().update(0, *final(r.unwrap())),
    {
        self.left.peek_mut()
    }

    /// Mutably borrows the element just right of the seam.
    pub fn peek_right_mut(&mut self) -> (r: Option<&mut T>)
        ensures
            final(self).left() == old(self).left(),
            old(self).right().len() == 0 ==> r is None
                && final(self).right() == old(self).right(),
            old(self).right().len() > 0 ==> r is Some
                && *r.unwrap() == old(self).right()[0]
                && final(self).right() == old(self).right().update(0, *final(r.unwrap())),
    {
        self.right.peek_mut()
    }

    /// Moves the seam one element to the left; `false` when nothing is
    /// left of it.
    pub fn go_left(&mut self) -> (r: bool)
        ensures
            old(self).left().len() == 0 ==> !r
                && final(self).left() == old(self).left()
                && final(self).right() == old(self).right(),
            old(self).left().len() > 0 ==> r
                && final(self).left() == old(self).left().drop_first()
                && final(self).right() == seq![old(self).left()[0]] + old(self).right(),
    {
        match self.left.pop() {
            None => false,
            Some(elem) => {
                self.right.push(elem);
                true
            },
        }
    }

    /// Moves the seam one element to the right; `false` when nothing is
    /// right of it.
    pub fn go_right(&mut self) -> (r: bool)
        ensures
            old(self).right().len() == 0 ==> !r
                && final(self).left() == old(self).left()
                && final(self).right() == old(self).right(),
            old(self).right().len() > 0 ==> r
                && final(self).right() == old(self).right().drop_first()
                && final(self).left() == seq![old(self).right()[0]] + old(self).left(),
    {
        match self.right.pop() {
            None => false,
            Some(elem) => {
                self.left.push(elem);
                true
            },
        }
    }
}

} // verus!
