use std::rc::Rc;
use std::sync::Arc;

use too_many_linked_list::linked_deque::LinkedList;
use too_many_linked_list::linked_stack::LinkedStack;
use too_many_linked_list::shared_linked_list::SharedLinkedList;
use too_many_linked_list::share::Share;

fn deque_items(list: &LinkedList<i32>) -> Vec<i32> {
    let mut v: Vec<i32> = Vec::new();
    let mut it = list.iter();
    while let Some(x) = it.next() {
        v.push(*x);
    }
    v
}

#[test]
fn len_tracks_mixed_ops() {
    let mut list = LinkedList::new();
    assert_eq!(list.len(), 0);
    assert!(list.is_empty());

    list.push_front(1);
    assert_eq!(list.len(), 1);
    list.push_back(2);
    assert_eq!(list.len(), 2);
    list.push_front(0);
    assert_eq!(list.len(), 3);
    assert!(!list.is_empty());

    // Popping an empty end later drains in order: front is FIFO for
    // push_back, back is LIFO for push_back.
    assert_eq!(list.pop_front(), Some(0));
    assert_eq!(list.len(), 2);
    assert_eq!(list.pop_back(), Some(2));
    assert_eq!(list.len(), 1);
    assert_eq!(list.pop_back(), Some(1));
    assert_eq!(list.len(), 0);
    assert_eq!(list.pop_back(), None);
    assert_eq!(list.len(), 0);
}

#[test]
fn default_is_empty() {
    let list: LinkedList<i32> = LinkedList::default();
    assert!(list.is_empty());
    assert_eq!(list.len(), 0);
}

#[test]
fn round_trip_rebuild() {
    let mut original = LinkedList::new();
    original.extend(vec![4, 8, 15, 16, 23, 42]);

    // Collect through the borrowing iterator ...
    let collected = deque_items(&original);

    // ... and rebuild by repeated push_back.
    let mut rebuilt = LinkedList::new();
    for x in collected {
        rebuilt.push_back(x);
    }
    assert!(original == rebuilt);
}

#[test]
fn clear_then_empty() {
    let mut list = LinkedList::new();
    list.extend(vec![1, 2, 3]);
    list.clear();
    assert!(list.is_empty());

    // A drained list stays drained, without side effects.
    assert_eq!(list.pop_front(), None);
    assert_eq!(list.pop_front(), None);
    assert_eq!(list.len(), 0);
}

#[test]
fn cursor_circular_both_ways() {
    let mut list = LinkedList::new();
    list.extend(vec![10, 20, 30]);

    // n + 1 steps forward from the ghost position return to it.
    let mut cursor = list.cursor_mut();
    assert_eq!(cursor.index(), None);
    for step in 0..4u32 {
        cursor.move_next();
        if step < 3 {
            assert_eq!(cursor.index(), Some(step as usize));
        }
    }
    assert_eq!(cursor.index(), None);

    // ... and n + 1 steps backward as well.
    let mut cursor = list.cursor_mut();
    cursor.move_prev();
    assert_eq!(cursor.index(), Some(2));
    cursor.move_prev();
    cursor.move_prev();
    assert_eq!(cursor.index(), Some(0));
    cursor.move_prev();
    assert_eq!(cursor.index(), None);
}

#[test]
fn split_splice_conservation() {
    let mut list = LinkedList::new();
    list.extend(vec![1, 2, 3, 4, 5]);

    let mut cursor = list.cursor_mut();
    cursor.move_next();
    cursor.move_next();
    cursor.move_next();
    assert_eq!(cursor.index(), Some(2));

    let part = cursor.split_before();
    assert_eq!(cursor.index(), Some(0));
    assert_eq!(part.len() + 3, 5);

    cursor.splice_before(part);
    assert_eq!(cursor.index(), Some(2));
    assert_eq!(list.len(), 5);
    assert_eq!(deque_items(&list), [1, 2, 3, 4, 5]);

    // The ghost-position case: the whole list is handed over and comes
    // back unchanged.
    let mut cursor = list.cursor_mut();
    let whole = cursor.split_before();
    assert_eq!(whole.len(), 5);
    cursor.splice_before(whole);
    assert_eq!(cursor.index(), None);
    assert_eq!(deque_items(&list), [1, 2, 3, 4, 5]);
}

#[test]
fn cursor_splice_scenario() {
    let mut list = LinkedList::new();
    list.push_back(1);
    list.push_back(2);
    list.push_back(3);
    list.push_back(4);
    list.push_back(5);
    list.push_back(6);

    let mut cursor = list.cursor_mut();
    cursor.move_next(); // now at 1
    cursor.splice_before(LinkedList::from_vec(vec![7]));
    cursor.splice_after(LinkedList::from_vec(vec![8]));
    assert_eq!(deque_items(&list), [7, 1, 8, 2, 3, 4, 5, 6]);
}

#[test]
fn cursor_on_empty_list() {
    let mut list: LinkedList<i32> = LinkedList::new();
    let mut cursor = list.cursor_mut();
    cursor.move_next();
    assert_eq!(cursor.index(), None);
    assert_eq!(cursor.current(), None);
    assert_eq!(cursor.peek_next(), None);
    assert_eq!(cursor.peek_prev(), None);
}

#[test]
fn pop_back_exhaustion() {
    let mut list = LinkedList::new();
    list.extend(vec![1, 2, 3]);
    assert_eq!(list.pop_back(), Some(3));
    assert_eq!(list.pop_back(), Some(2));
    assert_eq!(list.pop_back(), Some(1));
    assert_eq!(list.pop_back(), None);
    assert_eq!(list.len(), 0);
    assert_eq!(list.pop_back(), None);
    assert_eq!(list.len(), 0);
}

#[test]
fn splice_of_empty_is_noop() {
    let mut list = LinkedList::new();
    list.extend(vec![1, 2, 3]);
    let mut cursor = list.cursor_mut();
    cursor.move_next();
    cursor.splice_before(LinkedList::new());
    cursor.splice_after(LinkedList::new());
    assert_eq!(cursor.index(), Some(0));
    assert_eq!(deque_items(&list), [1, 2, 3]);

    // Splicing into an empty list on the ghost position adopts the other
    // list wholesale, still on the ghost position.
    let mut empty: LinkedList<i32> = LinkedList::new();
    let mut cursor = empty.cursor_mut();
    cursor.splice_before(LinkedList::from_vec(vec![9, 8]));
    assert_eq!(cursor.index(), None);
    assert_eq!(deque_items(&empty), [9, 8]);
}

#[test]
fn deque_front_back_accessors() {
    let mut list = LinkedList::new();
    assert_eq!(list.front(), None);
    assert_eq!(list.back(), None);
    assert_eq!(list.front_mut(), None);
    assert_eq!(list.back_mut(), None);

    list.extend(vec![1, 2, 3]);
    assert_eq!(list.front(), Some(&1));
    assert_eq!(list.back(), Some(&3));
    if let Some(x) = list.front_mut() {
        *x = 10;
    }
    if let Some(x) = list.back_mut() {
        *x = 30;
    }
    assert_eq!(deque_items(&list), [10, 2, 30]);
}

#[test]
fn deque_from_vec_and_into_iter_back() {
    let list = LinkedList::from_vec(vec![1, 2, 3]);
    let mut it = list.into_iter();
    assert_eq!(it.next_back(), Some(3));
    assert_eq!(it.next(), Some(1));
    assert_eq!(it.next_back(), Some(2));
    assert_eq!(it.next_back(), None);
    assert_eq!(it.next(), None);
}

#[test]
fn stack_back_operations() {
    let mut s = LinkedStack::new();
    assert_eq!(s.peek_back(), None);
    assert_eq!(s.pop_back(), None);

    s.push_back(1);
    s.push_back(2);
    assert_eq!(s.peek_back(), Some(&2));
    assert_eq!(s.peek(), Some(&1));
    assert_eq!(s.pop_back(), Some(2));
    assert_eq!(s.pop_back(), Some(1));
    assert_eq!(s.pop_back(), None);

    s.push(1);
    s.push(2);
    assert_eq!(s.pop_back(), Some(1));
    assert_eq!(s.pop_back(), Some(2));
    assert_eq!(s.pop_back(), None);
}

#[test]
fn stack_verbose_matches_plain() {
    let mut s = LinkedStack::new();
    assert_eq!(s.peek_verbose(), None);
    assert_eq!(s.pop_verbose(), None);
    assert_eq!(s.pop_back_verbose(), None);

    s.push_verbose(1);
    s.push_verbose(2);
    s.push_verbose(3);
    assert_eq!(s.peek_verbose(), Some(&3));
    assert_eq!(s.pop_verbose(), Some(3));
    assert_eq!(s.pop_back_verbose(), Some(1));
    assert_eq!(s.pop_verbose(), Some(2));
    assert_eq!(s.pop_verbose(), None);
}

#[test]
fn stack_iter_flavours_agree() {
    let mut s = LinkedStack::new();
    s.push(1);
    s.push(2);

    let mut book = s.iter_book();
    assert_eq!(book.peek(), Some(&2));
    assert_eq!(book.next(), Some(&2));
    assert_eq!(book.next(), Some(&1));
    assert_eq!(book.next(), None);

    let mut verbose = s.iter_verbose();
    assert_eq!(verbose.peek(), Some(&2));
    assert_eq!(verbose.next(), Some(&2));
    assert_eq!(verbose.next(), Some(&1));
    assert_eq!(verbose.next(), None);

    let mut my = s.iter_my();
    assert_eq!(my.next(), Some(&2));
    assert_eq!(my.next(), Some(&1));
    assert_eq!(my.next(), None);

    let mut consuming = s.into_iter_verbose();
    assert_eq!(consuming.next(), Some(2));
    assert_eq!(consuming.next(), Some(1));
    assert_eq!(consuming.next(), None);
}

#[test]
fn stack_into_iter_book_flavour() {
    let mut s = LinkedStack::new();
    s.push(7);
    s.push(9);
    let mut it = s.into_iter_book();
    assert_eq!(it.next(), Some(9));
    assert_eq!(it.next(), Some(7));
    assert_eq!(it.next(), None);
}

#[test]
fn iter_mut_book_edits_behind_node() {
    let mut s = LinkedStack::new();
    s.push(3);
    s.push(2);
    s.push(1); // [1, 2, 3]

    let mut it = s.iter_mut_book();
    assert_eq!(it.delete_after(), Some(2)); // [1, 3]
    let mut tail = LinkedStack::new();
    tail.push(5);
    tail.push(4); // [4, 5]
    assert_eq!(it.insert_list_after(tail), Some(())); // [1, 4, 5, 3]

    let mut replacement = LinkedStack::new();
    replacement.push(9); // [9]
    let removed = it.replace_after(replacement); // [1, 9]

    let mut removed_it = removed.iter();
    assert_eq!(removed_it.next(), Some(&4));
    assert_eq!(removed_it.next(), Some(&5));
    assert_eq!(removed_it.next(), Some(&3));
    assert_eq!(removed_it.next(), None);

    let mut s_it = s.iter();
    assert_eq!(s_it.next(), Some(&1));
    assert_eq!(s_it.next(), Some(&9));
    assert_eq!(s_it.next(), None);
}

#[test]
fn iter_mut_book_edits_on_empty() {
    let mut s: LinkedStack<i32> = LinkedStack::new();
    let mut it = s.iter_mut_book();
    assert_eq!(it.delete_after(), None);
    let mut join = LinkedStack::new();
    join.push(1);
    assert_eq!(it.insert_list_after(join), None);
    let mut join = LinkedStack::new();
    join.push(2);
    let back = it.replace_after(join);
    let mut back_it = back.iter();
    assert_eq!(back_it.next(), Some(&2));
    assert_eq!(back_it.next(), None);
}

#[test]
fn iter_mut_my_edits_at_position() {
    let mut s = LinkedStack::new();
    s.push(3);
    s.push(1); // [1, 3]

    let mut it = s.iter_mut_my();
    assert_eq!(it.next(), Some(&mut 1)); // now ahead of 3
    assert_eq!(it.delete_at(), Some(3)); // [1]
    let mut join = LinkedStack::new();
    join.push(5);
    join.push(4); // [4, 5]
    assert_eq!(it.insert_list_at(join), Some(())); // [1, 4, 5]

    let mut replacement = LinkedStack::new();
    replacement.push(7); // [7]
    let removed = it.replace_at(replacement); // [1, 7]

    let mut removed_it = removed.iter();
    assert_eq!(removed_it.next(), Some(&4));
    assert_eq!(removed_it.next(), Some(&5));
    assert_eq!(removed_it.next(), None);

    let mut s_it = s.iter();
    assert_eq!(s_it.next(), Some(&1));
    assert_eq!(s_it.next(), Some(&7));
    assert_eq!(s_it.next(), None);
}

#[test]
fn shared_fork_at_end_is_empty() {
    let list = SharedLinkedList::new().append(1);
    let mut it = list.iter();
    it.next();
    assert_eq!(it.peek(), None);
    let fork = it.fork();
    assert_eq!(fork.head(), None);
}

#[test]
fn share_hands_out_same_value() {
    let a0 = Rc::new(3);
    let a1 = a0.share();
    assert_eq!(*a1, 3);
    assert_eq!(*a0, 3);
    assert_eq!(Rc::strong_count(&a0), 2);

    let b0 = Arc::new("x");
    let b1 = b0.share();
    assert_eq!(*b1, "x");
    assert_eq!(Arc::strong_count(&b0), 2);
}
