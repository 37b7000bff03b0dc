use arcmem::arc::{Arc, ArcHeap, MutexArc};

#[test]
fn three_handles_free_once_at_last_drop() {
    let mut heap: ArcHeap<i32> = ArcHeap::new();
    let mut a = Arc::new(42, &mut heap);
    let mut b = a.clone(&mut heap);
    let mut c = b.clone(&mut heap);
    let mut frees = 0;
    if a.drop(&mut heap) {
        frees += 1;
    }
    assert_eq!(frees, 0);
    assert_eq!(*c.borrow(&heap), 42);
    if b.drop(&mut heap) {
        frees += 1;
    }
    assert_eq!(frees, 0);
    assert_eq!(*c.borrow(&heap), 42);
    if c.drop(&mut heap) {
        frees += 1;
    }
    assert_eq!(frees, 1);
}

#[test]
fn n_clones_then_n_plus_one_drops() {
    for n in 0..6usize {
        let mut heap: ArcHeap<u8> = ArcHeap::new();
        let first = Arc::new(7, &mut heap);
        let mut handles = vec![first];
        for _ in 0..n {
            let h = handles[0].clone(&mut heap);
            handles.push(h);
        }
        let mut freed_at = Vec::new();
        for (i, h) in handles.iter_mut().enumerate() {
            if h.drop(&mut heap) {
                freed_at.push(i);
            }
        }
        assert_eq!(freed_at, vec![n]);
    }
}

#[test]
fn second_drop_of_a_handle_does_nothing() {
    let mut heap: ArcHeap<i32> = ArcHeap::new();
    let mut a = Arc::new(1, &mut heap);
    let mut b = a.clone(&mut heap);
    assert!(!a.drop(&mut heap));
    assert!(!a.drop(&mut heap));
    assert_eq!(*b.borrow(&heap), 1);
    assert!(b.drop(&mut heap));
    assert!(!b.drop(&mut heap));
}

#[test]
fn borrow_after_new_reads_value() {
    let mut heap: ArcHeap<String> = ArcHeap::new();
    let a = Arc::new(String::from("hello"), &mut heap);
    let b = a.clone(&mut heap);
    assert_eq!(a.borrow(&heap), "hello");
    assert_eq!(b.borrow(&heap), "hello");
}

#[test]
fn new_unchecked_makes_a_cell() {
    let mut heap: ArcHeap<i32> = ArcHeap::new();
    let mut a = Arc::new_unchecked(3, &mut heap);
    assert_eq!(*a.borrow(&heap), 3);
    assert!(a.drop(&mut heap));
}

#[test]
fn freed_address_is_not_reused() {
    let mut heap: ArcHeap<i32> = ArcHeap::new();
    let mut a = Arc::new(1, &mut heap);
    assert!(a.drop(&mut heap));
    let b = Arc::new(2, &mut heap);
    let c = Arc::new(3, &mut heap);
    assert_eq!(*b.borrow(&heap), 2);
    assert_eq!(*c.borrow(&heap), 3);
}

#[test]
fn deep_clone_has_equal_value_and_own_cell() {
    let mut heap: ArcHeap<Vec<u8>> = ArcHeap::new();
    let mut a = Arc::new(vec![1, 2, 3], &mut heap);
    let mut d = a.deep_clone(&mut heap);
    assert!(a.eq(&d, &heap));
    assert_eq!(d.borrow(&heap), &vec![1, 2, 3]);
    // each cell has its own count: dropping the copy frees only the copy
    assert!(d.drop(&mut heap));
    assert_eq!(a.borrow(&heap), &vec![1, 2, 3]);
    assert!(a.drop(&mut heap));
}

#[test]
fn comparisons_follow_the_values() {
    let mut heap: ArcHeap<i32> = ArcHeap::new();
    let one = Arc::new(1, &mut heap);
    let two = Arc::new(2, &mut heap);
    let other_one = Arc::new(1, &mut heap);
    assert!(one.eq(&other_one, &heap));
    assert!(!one.ne(&other_one, &heap));
    assert!(one.ne(&two, &heap));
    assert!(one.lt(&two, &heap));
    assert!(one.le(&two, &heap));
    assert!(one.le(&other_one, &heap));
    assert!(two.gt(&one, &heap));
    assert!(two.ge(&one, &heap));
    assert!(!one.gt(&other_one, &heap));
    assert!(one.ge(&other_one, &heap));
}

#[test]
fn mutex_swaps_return_previous_values() {
    let mut heap: ArcHeap<String> = ArcHeap::new();
    let h = MutexArc::new(String::from("a"), &mut heap);
    let g = h.clone(&mut heap);
    assert_eq!(h.swap(&mut heap, String::from("b")), "a");
    assert_eq!(g.swap(&mut heap, String::from("c")), "b");
    assert_eq!(h.swap(&mut heap, String::from("d")), "c");
}

#[test]
fn mutex_swaps_in_either_order() {
    for b_first in [true, false] {
        let mut heap: ArcHeap<String> = ArcHeap::new();
        let h = MutexArc::new(String::from("a"), &mut heap);
        let g = h.clone(&mut heap);
        let (first, second) = if b_first {
            (h.swap(&mut heap, String::from("b")), g.swap(&mut heap, String::from("c")))
        } else {
            (g.swap(&mut heap, String::from("c")), h.swap(&mut heap, String::from("b")))
        };
        assert_eq!(first, "a");
        let last = h.swap(&mut heap, String::from("z"));
        if b_first {
            assert_eq!(second, "b");
            assert_eq!(last, "c");
        } else {
            assert_eq!(second, "c");
            assert_eq!(last, "b");
        }
    }
}

#[test]
fn mutex_handles_free_once() {
    let mut heap: ArcHeap<u32> = ArcHeap::new();
    let mut h = MutexArc::new(5, &mut heap);
    let mut g = h.clone(&mut heap);
    assert_eq!(g.swap(&mut heap, 6), 5);
    assert!(!h.drop(&mut heap));
    assert_eq!(g.swap(&mut heap, 7), 6);
    assert!(g.drop(&mut heap));
    assert!(!g.drop(&mut heap));
}
