use linked_lists::iterable_singly_linked_list::List;

#[test]
fn iterable_singly_linked_list_basics() {
    let mut list = List::new();
    // Check empty list behaves right
    assert_eq!(list.pop(), None);

    // Populate list
    list.push(1);
    list.push(2);
    list.push(3);

    // Check normal removal
    assert_eq!(list.pop(), Some(3));
    assert_eq!(list.pop(), Some(2));

    // Push some more just to make sure nothing's corrupted
    list.push(4);
    list.push(5);

    // Check normal removal
    assert_eq!(list.pop(), Some(5));
    assert_eq!(list.pop(), Some(4));

    // Check exhaustion
    assert_eq!(list.pop(), Some(1));
    assert_eq!(list.pop(), None);
}

#[test]
fn iterable_singly_linked_list_no_stack_overflow_when_drop_big_list() {
    {
        let mut list = List::new();
        for i in 1..100000 {
            list.push(i);
        }
    }

    println!("Dropped list");
}

#[test]
fn iterable_singly_linked_list_peek() {
    let mut list = List::new();
    assert_eq!(list.peek(), None);
    assert_eq!(list.peek_mut(), None);
    list.push(1);
    list.push(2);
    list.push(3);

    assert_eq!(list.peek(), Some(&3));
    assert_eq!(list.peek_mut(), Some(&mut 3));

    list.peek_mut().map(|value| {
        *value = 42;
        value
    });

    assert_eq!(list.peek(), Some(&42));
    assert_eq!(list.pop(), Some(42));
}

#[test]
fn into_iter() {
    let mut list = List::new();
    list.push(1);
    list.push(2);
    list.push(3);

    let mut iter = list.into_iter();
    assert_eq!(iter.next(), Some(3));
    assert_eq!(iter.next(), Some(2));
    assert_eq!(iter.next(), Some(1));
    assert_eq!(iter.next(), None);
}

#[test]
fn iterable_singly_linked_list_iter() {
    let mut list = List::new();
    list.push(1);
    list.push(2);
    list.push(3);

    let mut iter = list.iter();
    assert_eq!(iter.next(), Some(&3));
    assert_eq!(iter.next(), Some(&2));
    assert_eq!(iter.next(), Some(&1));
}

#[test]
fn iter_does_not_consume_the_list() {
    let mut list = List::new();
    list.push(1);
    list.push(2);

    let mut iter = list.iter();
    assert_eq!(iter.next(), Some(&2));
    assert_eq!(iter.next(), Some(&1));
    assert_eq!(iter.next(), None);

    // A second walk sees the same elements, and popping still works.
    let mut again = list.iter();
    assert_eq!(again.next(), Some(&2));
    assert_eq!(again.next(), Some(&1));
    assert_eq!(list.pop(), Some(2));
    assert_eq!(list.pop(), Some(1));
}

#[test]
fn iter_mut_writes_are_observable() {
    let mut list = List::new();
    list.push(1);
    list.push(2);
    list.push(3);

    let mut iter = list.iter_mut();
    while let Some(value) = iter.next() {
        *value += 10;
    }

    // The walk visited every element front to back, and the writes stuck;
    // the list itself was not consumed.
    let mut check = list.iter();
    assert_eq!(check.next(), Some(&13));
    assert_eq!(check.next(), Some(&12));
    assert_eq!(check.next(), Some(&11));
    assert_eq!(check.next(), None);
    assert_eq!(list.pop(), Some(13));
}

#[test]
fn pushes_then_pops_come_back_reversed() {
    let mut list = List::new();
    for i in 0..6 {
        list.push(i);
    }
    for i in (0..6).rev() {
        assert_eq!(list.pop(), Some(i));
    }
    assert_eq!(list.pop(), None);
}
