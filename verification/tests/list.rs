use packer::list::List;

#[test]
fn list() {
    let mut list = List::new();
    list.push("First");
    list.push("Second");
    list.push("Third");
    list.push("Fourth");

    assert_eq!("First", *list.index(0));
    assert_eq!("Second", *list.index(1));
    assert_eq!("Third", *list.index(2));
    assert_eq!("Fourth", *list.index(3));

    assert_eq!("Fourth", list.pop().unwrap());
    assert_eq!("Third", list.pop().unwrap());
    assert_eq!("Second", list.pop().unwrap());
    assert_eq!("First", list.pop().unwrap());
}

#[test]
fn list_drop() {
    let mut list = List::new();
    list.push("First");
}

#[test]
fn list_iteration() {
    let mut list = List::new();
    list.push(1);
    list.push(2);
    list.push(3);
    list.push(4);

    let mut sum: u32 = 0;
    let mut iter = list.into_iter();
    while let Some(f) = iter.next() {
        sum += f;
    }
    assert_eq!(sum, 10);
}

#[test]
fn pop_on_empty_yields_none() {
    let mut list: List<u32> = List::new();
    assert!(list.pop().is_none());
    list.push(7);
    assert_eq!(list.pop(), Some(7));
    assert!(list.pop().is_none());
}

#[test]
fn indexing_after_pushes_matches_push_order() {
    let mut list = List::new();
    let values: Vec<u64> = vec![10, 20, 30, 40, 50, 60, 70];
    for v in &values {
        list.push(*v);
    }
    assert_eq!(list.len(), values.len());
    for (i, v) in values.iter().enumerate() {
        assert_eq!(*list.index(i), *v);
    }
}

#[test]
fn popping_yields_reverse_push_order() {
    let mut list = List::new();
    for v in [1u8, 2, 3, 4, 5] {
        list.push(v);
    }
    let mut popped: Vec<u8> = Vec::new();
    while let Some(v) = list.pop() {
        popped.push(v);
    }
    assert_eq!(popped, vec![5, 4, 3, 2, 1]);
    assert!(list.pop().is_none());
}

#[test]
fn capacity_doubles_and_never_shrinks() {
    let mut list: List<u16> = List::new();
    assert_eq!(list.capacity(), 0);
    list.push(1);
    assert_eq!(list.capacity(), 1);
    list.push(2);
    assert_eq!(list.capacity(), 2);
    list.push(3);
    assert_eq!(list.capacity(), 4);
    list.push(4);
    assert_eq!(list.capacity(), 4);
    list.push(5);
    assert_eq!(list.capacity(), 8);

    while let Some(_) = list.pop() {
        assert!(list.capacity() == 8);
        assert!(list.capacity() >= list.len());
    }
    assert_eq!(list.capacity(), 8);
    assert_eq!(list.len(), 0);
}

#[test]
fn capacity_covers_length_throughout() {
    let mut list: List<u32> = List::new();
    for v in 0..20u32 {
        list.push(v);
        assert!(list.capacity() >= list.len());
        if v % 3 == 0 {
            list.pop();
            assert!(list.capacity() >= list.len());
        }
    }
}

#[test]
fn alternating_drain_from_both_ends() {
    let mut list = List::new();
    list.push("a");
    list.push("b");
    list.push("c");
    list.push("d");

    let mut iter = list.into_iter();
    assert_eq!(iter.next(), Some("a"));
    assert_eq!(iter.next_back(), Some("d"));
    assert_eq!(iter.next(), Some("b"));
    assert_eq!(iter.next_back(), Some("c"));
    assert_eq!(iter.next(), None);
    assert_eq!(iter.next_back(), None);
}

#[test]
fn partially_drained_iterator_dropped() {
    let mut list = List::new();
    list.push(String::from("one"));
    list.push(String::from("two"));
    list.push(String::from("three"));

    let mut iter = list.into_iter();
    assert_eq!(iter.next(), Some(String::from("one")));
}

#[test]
fn set_overwrites_in_place() {
    let mut list = List::new();
    list.push(5u32);
    list.push(6);
    list.push(7);
    list.set(1, 60);
    assert_eq!(*list.index(0), 5);
    assert_eq!(*list.index(1), 60);
    assert_eq!(*list.index(2), 7);
    assert_eq!(list.len(), 3);
}

#[test]
fn try_new_rejects_zero_sized_elements() {
    let refused: Option<List<()>> = List::try_new();
    assert!(refused.is_none());
    let refused_again: Option<List<()>> = List::try_new();
    assert!(refused_again.is_none());
}

#[test]
fn try_new_accepts_sized_elements() {
    let mut list: List<u8> = List::try_new().unwrap();
    assert_eq!(list.len(), 0);
    assert_eq!(list.capacity(), 0);
    list.push(3);
    assert_eq!(*list.index(0), 3);
}
