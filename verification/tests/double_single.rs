use too_many_linked_list::silly_lists::double_single::List;

#[test]
fn walk_aboot() {
    let mut list = List::new();                 // [_]

    list.push_left(0);                          // [0,_]
    list.push_right(1);                         // [0, _, 1]
    assert_eq!(list.peek_left(), Some(&0));
    assert_eq!(list.peek_right(), Some(&1));

    list.push_left(2);                          // [0, 2, _, 1]
    list.push_left(3);                          // [0, 2, 3, _, 1]
    list.push_right(4);                         // [0, 2, 3, _, 4, 1]

    while list.go_left() {}                     // [_, 0, 2, 3, 4, 1]

    assert_eq!(list.pop_left(), None);
    assert_eq!(list.pop_right(), Some(0));      // [_, 2, 3, 4, 1]
    assert_eq!(list.pop_right(), Some(2));      // [_, 3, 4, 1]

    list.push_left(5);                          // [5, _, 3, 4, 1]
    assert_eq!(list.pop_right(), Some(3));      // [5, _, 4, 1]
    assert_eq!(list.pop_left(), Some(5));       // [_, 4, 1]
    assert_eq!(list.pop_right(), Some(4));      // [_, 1]
    assert_eq!(list.pop_right(), Some(1));      // [_]

    assert_eq!(list.pop_right(), None);
    assert_eq!(list.pop_left(), None);
}

#[test]
fn seam_peek_mut() {
    let mut list = List::new();
    assert_eq!(list.peek_left_mut(), None);
    assert_eq!(list.peek_right_mut(), None);

    list.push_left(1);
    list.push_right(2);
    if let Some(x) = list.peek_left_mut() {
        *x = 10;
    }
    if let Some(x) = list.peek_right_mut() {
        *x = 20;
    }
    assert_eq!(list.pop_left(), Some(10));
    assert_eq!(list.pop_right(), Some(20));
}

#[test]
fn seam_go_right() {
    let mut list = List::new();
    assert!(!list.go_right());
    list.push_right(1);
    list.push_right(2);
    assert!(list.go_right());                   // [2, _, 1]
    assert_eq!(list.peek_left(), Some(&2));
    assert!(list.go_right());                   // [2, 1, _]
    assert!(!list.go_right());
    assert_eq!(list.pop_left(), Some(1));
    assert_eq!(list.pop_left(), Some(2));
}
