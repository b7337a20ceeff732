//! A mutating cursor over a [`LinkedList`].
//!
//! [`CursorMut`] borrows a list exclusively and stands either on one of its
//! elements — then [`CursorMut::index`] gives the element's distance from
//! the front — or on the one *ghost* position that sits between the back
//! and the front of the list. Moving runs circularly: past the back lies
//! the ghost, past the ghost lies the front again. The spec functions
//! [`next_position`] and [`prev_position`] are the exact model of that
//! walk, and every contract here speaks of the borrowed list's view and of
//! the cursor position.
//!
//! Because the cursor keeps the list borrowed, its contracts also carry
//! the clause `*final(final(self).list) == *final(old(self).list)`: the
//! final value of the borrow is the same before and after each call, which
//! lets a caller connect the list it handed in with what the cursor left
//! behind once the cursor is gone.
use vstd::prelude::*;

use crate::linked_deque::LinkedList;

verus! {

/// Where a cursor stands after moving one step toward the back: from the
/// ghost position it reaches the front of a non-empty list; from the last
/// element it reaches the ghost position.
pub open spec fn next_position(len: int, position: Option<int>) -> Option<int> {
    match position {
        None => if len > 0 { Some(0int) } else { None },
        Some(i) => if i + 1 < len { Some(i + 1) } else { None },
    }
}

/// Where a cursor stands after moving one step toward the front: from the
/// ghost position it reaches the back of a non-empty list; from the first
/// element it reaches the ghost position.
pub open spec fn prev_position(len: int, position: Option<int>) -> Option<int> {
    match position {
        None => if len > 0 { Some(len - 1) } else { None },
        Some(i) => if i > 0 { Some(i - 1) } else { None },
    }
}

/// A cursor with exclusive access to a [`LinkedList`].
pub struct CursorMut<'a, T> {
    /// The borrowed list.
    pub list: &'a mut LinkedList<T>,
    /// The distance of the current element from the front, or `None` on
    /// the ghost position.
    pub index: Option<usize>,
}

impl<'a, T> CursorMut<'a, T> {
    /// The elements of the borrowed list, front to back.
    pub open spec fn elements(self) -> Seq<T> {
        (*self.list)@
    }

    /// The current position as a mathematical integer, `None` on the
    /// ghost position.
    pub open spec fn position(self) -> Option<int> {
        match self.index {
            None => None,
            Some(i) => Some(i as int),
        }
    }

    /// A cursor either stands on the ghost position or on an element.
    pub open spec fn wf(self) -> bool {
        match self.index {
            None => true,
            Some(i) => i < self.elements().len(),
        }
    }

    /// The current position's distance from the front, or `None` on the
    /// ghost position.
    pub fn index(&self) -> (r: Option<usize>)
        ensures
            r == self.index,
    {
        self.index
    }

    /// Moves one step toward the back, circularly over the ghost position.
    pub fn move_next(&mut self)
        requires
            old(self).wf(),
        ensures
            final(self).wf(),
            final(self).elements() == old(self).elements(),
            final(self).position()
                == next_position(old(self).elements().len() as int, old(self).position()),
            *final(final(self).list) == *final(old(self).list),
    {
        let n = self.list.len();
        match self.index {
            Some(i) => {
                if i + 1 < n {
                    self.index = Some(i + 1);
                } else {
                    self.index = None;
                }
            },
            None => {
                if n > 0 {
                    self.index = Some(0);
                }
            },
        }
    }

    /// Moves one step toward the front, circularly over the ghost
    /// position.
    pub fn move_prev(&mut self)
        requires
            old(self).wf(),
        ensures
            final(self).wf(),
            final(self).elements() == old(self).elements(),
            final(self).position()
                == prev_position(old(self).elements().len() as int, old(self).position()),
            *final(final(self).list) == *final(old(self).list),
    {
        match self.index {
            Some(i) => {
                if i > 0 {
                    self.index = Some(i - 1);
                } else {
                    self.index = None;
                }
            },
            None => {
                if !self.list.is_empty() {
                    self.index = Some(self.list.len() - 1);
                }
            },
        }
    }

    /// Mutably borrows the current element; `None` on the ghost position.
    pub fn current(&mut self) -> (r: Option<&mut T>)
        requires
            old(self).wf(),
        ensures
            final(self).wf(),
            final(self).index == old(self).index,
            *final(final(self).list) == *final(old(self).list),
            old(self).position() is None ==> r is None
                && final(self).elements() == old(self).elements(),
            old(self).position() matches Some(i) ==> r is Some
                && *r.unwrap() == old(self).elements()[i]
                && final(self).elements()
                    == old(self).elements().update(i, *final(r.unwrap())),
    {
        match self.index {
            None => None,
            Some(i) => Some(&mut self.list.elems[i]),
        }
    }

    /// Mutably borrows the element one step toward the back — from the
    /// ghost position that is the front element; `None` when none exists.
    pub fn peek_next(&mut self) -> (r: Option<&mut T>)
        requires
            old(self).wf(),
        ensures
            final(self).wf(),
            final(self).index == old(self).index,
            *final(final(self).list) == *final(old(self).list),
            match next_position(old(self).elements().len() as int, old(self).position()) {
                None => r is None && final(self).elements() == old(self).elements(),
                Some(i) => r is Some && *r.unwrap() == old(self).elements()[i]
                    && final(self).elements()
                        == old(self).elements().update(i, *final(r.unwrap())),
            },
    {
        let n = self.list.elems.len();
        match self.index {
            Some(i) => {
                if i + 1 < n {
                    Some(&mut self.list.elems[i + 1])
                } else {
                    None
                }
            },
            None => {
                if n > 0 {
                    Some(&mut self.list.elems[0])
                } else {
                    None
                }
            },
        }
    }

    /// Mutably borrows the element one step toward the front — from the
    /// ghost position that is the back element; `None` when none exists.
    pub fn peek_prev(&mut self) -> (r: Option<&mut T>)
        requires
            old(self).wf(),
        ensures
            final(self).wf(),
            final(self).index == old(self).index,
            *final(final(self).list) == *final(old(self).list),
            match prev_position(old(self).elements().len() as int, old(self).position()) {
                None => r is None && final(self).elements() == old(self).elements(),
                Some(i) => r is Some && *r.unwrap() == old(self).elements()[i]
                    && final(self).elements()
                        == old(self).elements().update(i, *final(r.unwrap())),
            },
    {
        match self.index {
            Some(i) => {
                if i > 0 {
                    Some(&mut self.list.elems[i - 1])
                } else {
                    None
                }
            },
            None => {
                let len = self.list.elems.len();
                if len > 0 {
                    Some(&mut self.list.elems[len - 1])
                } else {
                    None
                }
            },
        }
    }

    /// Detaches everything in front of the current element into a new
    /// list; the cursor stays on its element, which is now the front. On
    /// the ghost position the whole list is handed over and the borrowed
    /// list becomes empty.
    pub fn split_before(&mut self) -> (r: LinkedList<T>)
        requires
            old(self).wf(),
        ensures
            final(self).wf(),
            *final(final(self).list) == *final(old(self).list),
            old(self).position() is None ==> r@ == old(self).elements()
                && final(self).elements() == Seq::<T>::empty()
                && final(self).index is None,
            old(self).position() matches Some(i) ==> r@ == old(self).elements().take(i)
                && final(self).elements()
                    == old(self).elements().skip(i)
                && final(self).index == Some(0usize),
    {
        match self.index {
            None => {
                let mut elems: Vec<T> = Vec::new();
                core::mem::swap(&mut self.list.elems, &mut elems);
                LinkedList { elems }
            },
            Some(i) => {
                let mut rest = self.list.elems.split_off(i);
                core::mem::swap(&mut self.list.elems, &mut rest);
                self.index = Some(0);
                LinkedList { elems: rest }
            },
        }
    }

    /// Detaches everything behind the current element into a new list; the
    /// cursor stays where it is. On the ghost position the whole list is
    /// handed over and the borrowed list becomes empty.
    pub fn split_after(&mut self) -> (r: LinkedList<T>)
        requires
            old(self).wf(),
        ensures
            final(self).wf(),
            *final(final(self).list) == *final(old(self).list),
            old(self).position() is None ==> r@ == old(self).elements()
                && final(self).elements() == Seq::<T>::empty()
                && final(self).index is None,
            old(self).position() matches Some(i) ==> r@ == old(self).elements().skip(i + 1)
                && final(self).elements() == old(self).elements().take(i + 1)
                && final(self).index == old(self).index,
    {
        match self.index {
            None => {
                let mut elems: Vec<T> = Vec::new();
                core::mem::swap(&mut self.list.elems, &mut elems);
                LinkedList { elems }
            },
            Some(i) => {
                let n = self.list.elems.len();
                proof {
                    assert(i < n);
                }
                let rest = self.list.elems.split_off(i + 1);
                LinkedList { elems: rest }
            },
        }
    }

    /// Splices a whole list in just before the current element, so the
    /// cursor's element keeps its place relative to the back and the
    /// cursor's index grows by the spliced length. On the ghost position
    /// the list is appended at the back. `input` is consumed.
    pub fn splice_before(&mut self, input: LinkedList<T>)
        requires
            old(self).wf(),
        ensures
            final(self).wf(),
            *final(final(self).list) == *final(old(self).list),
            old(self).position() is None ==> final(self).elements()
                == old(self).elements() + input@
                && final(self).index is None,
            old(self).position() matches Some(i) ==> final(self).elements()
                == old(self).elements().take(i) + input@ + old(self).elements().skip(i)
                && final(self).position() == Some(i + input@.len()),
    {
        let mut input_elems = input.elems;
        match self.index {
            None => {
                self.list.elems.append(&mut input_elems);
            },
            Some(i) => {
                let input_len = input_elems.len();
                let mut tail = self.list.elems.split_off(i);
                let tail_len = tail.len();
                self.list.elems.append(&mut input_elems);
                self.list.elems.append(&mut tail);
                proof {
                    assert((*self.list)@ =~= old(self).elements().take(i as int)
                        + input@ + old(self).elements().skip(i as int));
                    assert(tail_len >= 1);
                }
                let new_index = self.list.elems.len() - tail_len;
                proof {
                    assert(new_index == i + input_len);
                }
                self.index = Some(new_index);
            },
        }
    }

    /// Splices a whole list in just behind the current element; the cursor
    /// and its index do not move. On the ghost position the list is put in
    /// front of the whole list. `input` is consumed.
    pub fn splice_after(&mut self, input: LinkedList<T>)
        requires
            old(self).wf(),
        ensures
            final(self).wf(),
            *final(final(self).list) == *final(old(self).list),
            old(self).position() is None ==> final(self).elements()
                == input@ + old(self).elements()
                && final(self).index is None,
            old(self).position() matches Some(i) ==> final(self).elements()
                == old(self).elements().take(i + 1) + input@ + old(self).elements().skip(i + 1)
                && final(self).index == old(self).index,
    {
        let mut input_elems = input.elems;
        match self.index {
            None => {
                core::mem::swap(&mut self.list.elems, &mut input_elems);
                self.list.elems.append(&mut input_elems);
            },
            Some(i) => {
                let n = self.list.elems.len();
                proof {
                    assert(i < n);
                }
                let mut tail = self.list.elems.split_off(i + 1);
                self.list.elems.append(&mut input_elems);
                self.list.elems.append(&mut tail);
                proof {
                    assert((*self.list)@
                        =~= old(self).elements().take(i + 1) + input@
                            + old(self).elements().skip(i + 1));
                }
            },
        }
    }
}

/// The position a cursor reaches after `n` steps of [`next_position`].
pub open spec fn position_after_nexts(len: int, position: Option<int>, n: nat) -> Option<int>
    decreases n,
{
    if n == 0 {
        position
    } else {
        position_after_nexts(len, next_position(len, position), (n - 1) as nat)
    }
}

/// The position a cursor reaches after `n` steps of [`prev_position`].
pub open spec fn position_after_prevs(len: int, position: Option<int>, n: nat) -> Option<int>
    decreases n,
{
    if n == 0 {
        position
    } else {
        position_after_prevs(len, prev_position(len, position), (n - 1) as nat)
    }
}

proof fn lemma_nexts_from_element_reach_ghost(len: int, i: int)
    requires
        0 <= i < len,
    ensures
        position_after_nexts(len, Some(i), (len - i) as nat) == None::<int>,
    decreases len - i,
{
    if i + 1 < len {
        lemma_nexts_from_element_reach_ghost(len, i + 1);
        assert(position_after_nexts(len, Some(i), (len - i) as nat)
            == position_after_nexts(len, Some(i + 1), (len - i - 1) as nat));
    } else {
        assert(next_position(len, Some(i)) == None::<int>);
        assert(position_after_nexts(len, Some(i), (len - i) as nat)
            == position_after_nexts(len, None, 0));
    }
}

proof fn lemma_prevs_from_element_reach_ghost(len: int, i: int)
    requires
        0 <= i < len,
    ensures
        position_after_prevs(len, Some(i), (i + 1) as nat) == None::<int>,
    decreases i,
{
    if i > 0 {
        lemma_prevs_from_element_reach_ghost(len, i - 1);
        assert(position_after_prevs(len, Some(i), (i + 1) as nat)
            == position_after_prevs(len, Some(i - 1), i as nat));
    } else {
        assert(prev_position(len, Some(i)) == None::<int>);
        assert(position_after_prevs(len, Some(0int), 1)
            == position_after_prevs(len, None, 0));
    }
}

/// Cursor circularity: on a list of length `len`, a cursor standing on
/// the ghost position is back on the ghost position after `len + 1`
/// steps of [`CursorMut::move_next`] — it has visited every element once
/// and the ghost position once.
pub proof fn lemma_move_next_circular(len: int)
    requires
        len >= 0,
    ensures
        position_after_nexts(len, None, (len + 1) as nat) == None::<int>,
{
    if len == 0 {
        assert(next_position(0, None) == None::<int>);
        assert(position_after_nexts(0, None, 1) == position_after_nexts(0, None, 0));
    } else {
        lemma_nexts_from_element_reach_ghost(len, 0);
        assert(next_position(len, None) == Some(0int));
        assert(position_after_nexts(len, None, (len + 1) as nat)
            == position_after_nexts(len, Some(0int), len as nat));
    }
}

/// Cursor circularity toward the front: on a list of length `len`, a
/// cursor standing on the ghost position is back on the ghost position
/// after `len + 1` steps of [`CursorMut::move_prev`].
pub proof fn lemma_move_prev_circular(len: int)
    requires
        len >= 0,
    ensures
        position_after_prevs(len, None, (len + 1) as nat) == None::<int>,
{
    if len == 0 {
        assert(prev_position(0, None) == None::<int>);
        assert(position_after_prevs(0, None, 1) == position_after_prevs(0, None, 0));
    } else {
        lemma_prevs_from_element_reach_ghost(len, len - 1);
        assert(prev_position(len, None) == Some(len - 1));
        assert(position_after_prevs(len, None, (len + 1) as nat)
            == position_after_prevs(len, Some(len - 1), len as nat));
    }
}

/// Split and splice conserve the list. A cursor on position `p` of a
/// list with view `s` splits off `s.take(i)` (or all of `s` from the
/// ghost position) by [`CursorMut::split_before`], and splicing that part
/// back with [`CursorMut::splice_before`] — the cursor now stands at the
/// front, or on the ghost position of the emptied list — rebuilds `s`.
/// The two parts always hold the original length between them.
pub proof fn lemma_split_before_splice_before_conserves<T>(s: Seq<T>, p: Option<int>)
    requires
        match p {
            None => true,
            Some(i) => 0 <= i < s.len(),
        },
    ensures
        match p {
            None => Seq::<T>::empty() + s == s,
            Some(i) => s.take(i) + s.skip(i) == s
                && s.take(i).len() + s.skip(i).len() == s.len(),
        },
{
    match p {
        None => {
            assert(Seq::<T>::empty() + s =~= s);
        },
        Some(i) => {
            assert(s.take(i) + s.skip(i) =~= s);
        },
    }
}

impl<T> LinkedList<T> {
    /// Starts a cursor on the ghost position of this list.
    pub fn cursor_mut(&mut self) -> (c: CursorMut<'_, T>)
        ensures
            c.elements() == old(self)@,
            c.index is None,
            c.wf(),
            *final(c.list) == *final(old(self)),
    {
        CursorMut { list: self, index: None }
    }
}

} // verus!
