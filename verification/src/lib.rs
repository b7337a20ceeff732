//! Verified linked-list containers.
//!
//! The crate collects several list shapes, each with contracts over a
//! mathematical sequence view:
//! - [`linked_stack`]: a singly-linked stack with borrowing, mutating and
//!   consuming iterators.
//! - [`linked_queue`]: a singly-linked queue pushed at the tail and popped at
//!   the head, with in-place reversal.
//! - [`shared_linked_list`]: a persistent list whose tails are shared
//!   between versions through reference counting.
//! - [`bad_safe_deque`]: a plain double-ended list.
//! - [`linked_deque`]: the centrepiece, a double-ended list with a mutating
//!   cursor that can move circularly over the elements, peek on both sides,
//!   and split or splice whole lists in place.
//! - [`silly_lists`]: a two-stack list with a movable seam.
//! - [`share`]: a small trait for duplicating shared-ownership handles.
//! - [`bad`]: early list layouts kept for comparison, types only.

pub mod bad;
pub mod share;
pub mod linked_stack;
pub mod linked_queue;
pub mod shared_linked_list;
pub mod silly_lists;
pub mod bad_safe_deque;
pub mod linked_deque;
