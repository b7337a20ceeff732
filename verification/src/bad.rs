//! Early layouts for a singly-linked list, kept as a study in how not to lay
//! one out. None of them is used by the working containers.
use vstd::prelude::*;

verus! {

/// A list whose tail lives behind a box, but whose final `Empty` node still
/// costs a full variant, and whose first element sits on the stack.
#[derive(Debug)]
pub enum BadList1<T> {
    Empty,
    Elem(T, Box<BadList1<T>>),
}

/// A variant that avoids the trailing `Empty` behind the last element at the
/// price of a far more complicated shape.
#[derive(Debug)]
pub enum BadList2<T> {
    Empty,
    ElemThenEmpty(T),
    ElemThenNotEmpty(T, Box<BadList2<T>>),
}

/// A head enum over a boxed node. The shape is right, but the node type
/// leaks into the public interface.
#[derive(Debug)]
pub enum List3<T> {
    Empty,
    More(Box<Node3<T>>),
}

/// The node type of [`List3`].
#[derive(Debug)]
pub struct Node3<T> {
    elem: T,
    next: List3<T>,
}

} // verus!
