use linked_lists::shared_ownership_list::List;

#[test]
fn shared_ownership_list_basics() {
    let list = List::new();
    assert_eq!(list.head(), None);

    let list = list.prepend(1).prepend(2).prepend(3);
    assert_eq!(list.head(), Some(&3));

    let list = list.tail();
    assert_eq!(list.head(), Some(&2));

    let list = list.tail();
    assert_eq!(list.head(), Some(&1));

    let list = list.tail();
    assert_eq!(list.head(), None);

    // Make sure empty tail works
    let list = list.tail();
    assert_eq!(list.head(), None);
}

#[test]
fn shared_ownership_list_iter() {
    let list = List::new().prepend(1).prepend(2).prepend(3);

    let mut iter = list.iter();
    assert_eq!(iter.next(), Some(&3));
    assert_eq!(iter.next(), Some(&2));
    assert_eq!(iter.next(), Some(&1));
}

#[test]
fn trident() {
    let list = List::new();

    let list1 = list.prepend(1).prepend(2).prepend(3).prepend(4);

    let list2 = list1.tail();
    let list3 = list2.prepend(5);

    assert_eq!(list1.head(), Some(&4));
    assert_eq!(list2.head(), Some(&3));
    // The node holding 3 has three owners at this point: list1's suffix,
    // list2 itself, and list3's suffix — shared, not copied.
    assert_eq!(list2.head_strong_count(), Some(3));
    assert_eq!(list3.head(), Some(&5));
}

#[test]
fn dropping_one_handle_keeps_shared_tail_alive() {
    let base = List::new().prepend(1).prepend(2);
    let longer = base.prepend(3);
    drop(base);

    // The suffix survives: its nodes were shared, and `longer` still owns
    // them.
    assert_eq!(longer.head(), Some(&3));
    let rest = longer.tail();
    assert_eq!(rest.head(), Some(&2));
    assert_eq!(rest.tail().head(), Some(&1));
}
