use too_many_linked_list::linked_stack::LinkedStack;
use too_many_linked_list::linked_stack::reverse;

fn stack_items(list: &LinkedStack<i32>) -> Vec<i32> {
    let mut v: Vec<i32> = Vec::new();
    let mut it = list.iter();
    while let Some(x) = it.next() {
        v.push(*x);
    }
    v
}

#[test]
fn basics() {
    let mut list = LinkedStack::new();

    // Check empty list behaves right
    assert_eq!(list.pop(), None);

    // Populate list
    list.push(1);
    list.push(2);
    list.push(3);

    // Check normal removal
    assert_eq!(list.pop(), Some(3));
    assert_eq!(list.pop(), Some(2));

    // Push some more just to make sure nothing's corrupted
    list.push(4);
    list.push(5);

    // Check normal removal
    assert_eq!(list.pop(), Some(5));
    assert_eq!(list.pop(), Some(4));

    // Check exhaustion
    assert_eq!(list.pop(), Some(1));
    assert_eq!(list.pop(), None);
}

#[test]
fn peek() {
    let mut list = LinkedStack::new();
    assert_eq!(list.peek(), None);
    assert_eq!(list.peek_mut(), None);
    list.push(1);
    list.push(2);
    list.push(3);

    assert_eq!(list.peek(), Some(&3));
    assert_eq!(list.peek_mut(), Some(&mut 3));

    list.peek_mut().map(|value| *value = 42);

    assert_eq!(list.peek(), Some(&42));
    assert_eq!(list.pop(), Some(42));
}

#[test]
fn test_reverse() {
    let mut list = LinkedStack::new();
    reverse(&mut list);
    assert_eq!(stack_items(&list), [0i32; 0]);

    list.push(3);
    reverse(&mut list);
    assert_eq!(stack_items(&list), [3]);

    list.push(2);
    list.push(1);
    assert_eq!(stack_items(&list), [1, 2, 3]);
    reverse(&mut list);
    assert_eq!(stack_items(&list), [3, 2, 1]);
}

#[test]
fn into_iter() {
    let mut list = LinkedStack::new();
    list.push(1);
    list.push(2);
    list.push(3);

    let mut iter = list.into_iter();
    assert_eq!(iter.next(), Some(3));
    assert_eq!(iter.next(), Some(2));
    assert_eq!(iter.next(), Some(1));
    assert_eq!(iter.next(), None);
}

#[test]
fn iter() {
    let mut list = LinkedStack::new();
    list.push(1);
    list.push(2);
    list.push(3);

    let mut iter = list.iter();

    assert_eq!(iter.peek(), Some(&3));
    assert_eq!(iter.peek(), Some(&3));
    assert_eq!(iter.next(), Some(&3));

    assert_eq!(iter.peek(), Some(&2));
    assert_eq!(iter.next(), Some(&2));

    assert_eq!(iter.peek(), Some(&1));
    assert_eq!(iter.peek(), Some(&1));
    assert_eq!(iter.next(), Some(&1));

    assert_eq!(iter.peek(), None);
    assert_eq!(iter.peek(), None);
    assert_eq!(iter.next(), None);
}

#[test]
fn iter_mut() {
    let mut list = LinkedStack::new();
    list.push(1);
    list.push(2);
    list.push(3);

    let mut iter = list.iter_mut();
    assert_eq!(iter.next(), Some(&mut 3));
    assert_eq!(iter.next(), Some(&mut 2));

    assert_eq!(iter.peek(), Some(&1));
    assert_eq!(iter.peek_mut(), Some(&mut 1));
    if let Some(x) = iter.peek_mut() {
        *x = 4;
    }

    assert_eq!(iter.next(), Some(&mut 4));

    assert_eq!(iter.peek(), None);
    assert_eq!(iter.peek_mut(), None);
    assert_eq!(iter.next(), None);
}

#[test]
fn iter_mut_insert_one_after() {
    let mut list = LinkedStack::new();

    let mut iter = list.iter_mut_book();
    assert_eq!(iter.insert_after(3), None); // fails on an empty list

    list.push(1);
    let mut iter = list.iter_mut_book();
    assert_eq!(iter.insert_after(3), Some(())); // succeeds
    assert_eq!(iter.peek(), Some(&1));

    assert_eq!(stack_items(&list), [1, 3]);

    let mut iter = list.iter_mut_book();
    assert_eq!(iter.next(), Some(&mut 1));
    assert_eq!(iter.next(), Some(&mut 3));
    assert_eq!(iter.next(), None);
}

#[test]
fn iter_mut_split_after() {
    let mut list1 = LinkedStack::<i32>::new();
    let mut iter = list1.iter_mut_book();
    let list2 = iter.split_after();
    assert_eq!(stack_items(&list1), [1i32; 0]);
    assert_eq!(stack_items(&list2), [1i32; 0]);

    let mut list1 = LinkedStack::<i32>::new();
    list1.push(1);
    let mut iter = list1.iter_mut_book();
    let list2 = iter.split_after();
    assert_eq!(stack_items(&list1), [1]);
    assert_eq!(stack_items(&list2), [1i32; 0]);

    let mut list1 = LinkedStack::<i32>::new();
    list1.push(1);
    let mut iter = list1.iter_mut_book();
    let list2 = iter.split_after();
    assert_eq!(stack_items(&list1), [1]);
    assert_eq!(stack_items(&list2), [1i32; 0]);

    let mut list1 = LinkedStack::<i32>::new();
    list1.push(1);
    list1.push(2);
    let mut iter = list1.iter_mut_book();
    let list2 = iter.split_after();
    assert_eq!(stack_items(&list1), [2]);
    assert_eq!(stack_items(&list2), [1]);
}

#[test]
fn iter_mut_insert_at() {
    let mut list = LinkedStack::new();

    let mut iter = list.iter_mut_my();
    iter.insert_at(3);
    assert_eq!(stack_items(&list), [3]);

    list.push(1);
    let mut iter = list.iter_mut_my();
    iter.insert_at(4);
    assert_eq!(iter.peek(), Some(&4));

    assert_eq!(stack_items(&list), [4, 1, 3]);

    let mut iter = list.iter_mut_my();
    assert_eq!(iter.next(), Some(&mut 4));
    assert_eq!(iter.next(), Some(&mut 1));
    assert_eq!(iter.next(), Some(&mut 3));
    assert_eq!(iter.next(), None);

    iter.insert_at(8);
    assert_eq!(iter.peek(), Some(&8));
}

#[test]
fn iter_mut_split_at() {
    let mut list1 = LinkedStack::<i32>::new();
    let mut iter = list1.iter_mut_my();
    let list2 = iter.split_at();
    assert_eq!(stack_items(&list1), [1i32; 0]);
    assert_eq!(stack_items(&list2), [1i32; 0]);

    let mut list1 = LinkedStack::<i32>::new();
    list1.push(1);
    let mut iter = list1.iter_mut_my();
    let list2 = iter.split_at();
    assert_eq!(stack_items(&list1), [1i32; 0]);
    assert_eq!(stack_items(&list2), [1]);

    let mut list1 = LinkedStack::<i32>::new();
    list1.push(1);
    let mut iter = list1.iter_mut_my();
    iter.next();
    let list2 = iter.split_at();
    assert_eq!(stack_items(&list1), [1]);
    assert_eq!(stack_items(&list2), [1i32; 0]);

    let mut list1 = LinkedStack::<i32>::new();
    list1.push(1);
    list1.push(2);
    let mut iter = list1.iter_mut_my();
    iter.next();
    let list2 = iter.split_at();
    assert_eq!(stack_items(&list1), [2]);
    assert_eq!(stack_items(&list2), [1]);
}
