use structures::heap::Heap;

#[test]
fn heap_new_is_empty() {
    let mut heap: Heap<i32> = Heap::new();
    assert_eq!(heap.peak(), None);
    assert_eq!(heap.pop(), None);
}

#[test]
fn heap_default_is_empty() {
    let heap: Heap<i32> = Heap::default();
    assert_eq!(heap.peak(), None);
}

#[test]
fn heap_push_of_first_item_keeps_it_in_front() {
    let mut heap = Heap::new();
    heap.push(5);
    assert_eq!(heap.peak(), Some(&5));
    assert_eq!(heap.pop(), Some(5));
    assert_eq!(heap.pop(), None);
}

#[test]
fn heap_push_of_smaller_item_changes_places_with_the_item_halfway() {
    let mut heap = Heap::new();
    heap.push(5);
    heap.push(3);
    assert_eq!(heap.peak(), Some(&3));
    assert_eq!(heap.pop(), Some(5));
    assert_eq!(heap.pop(), Some(3));
    assert_eq!(heap.pop(), None);
}

#[test]
fn heap_push_of_greater_item_leaves_it_at_the_end() {
    let mut heap = Heap::new();
    heap.push(5);
    heap.push(10);
    assert_eq!(heap.peak(), Some(&5));
    assert_eq!(heap.pop(), Some(10));
    assert_eq!(heap.pop(), Some(5));
}

#[test]
fn heap_push() {
    let mut heap = Heap::new();
    heap.push(5);
    heap.push(10);
    heap.push(3);
    assert_eq!(heap.peak(), Some(&5));
    assert_eq!(heap.pop(), Some(10));
    assert_eq!(heap.pop(), Some(3));
    assert_eq!(heap.pop(), Some(5));
    assert_eq!(heap.pop(), None);
}

#[test]
fn heap_push_compares_with_the_item_halfway_only() {
    let mut heap = Heap::new();
    heap.push((1, 'a'));
    heap.push((1, 'a'));
    heap.push((0, 'b'));
    heap.push((0, 'c'));
    assert_eq!(heap.peak(), Some(&(1, 'a')));
    assert_eq!(heap.pop(), Some((0, 'c')));
    assert_eq!(heap.pop(), Some((1, 'a')));
    assert_eq!(heap.pop(), Some((0, 'b')));
    assert_eq!(heap.pop(), Some((1, 'a')));
    assert_eq!(heap.pop(), None);
}

#[test]
fn heap_push_of_equal_item_leaves_it_at_the_end() {
    let mut heap = Heap::new();
    heap.push((2, 1));
    heap.push((2, 1));
    heap.push((2, 0));
    assert_eq!(heap.pop(), Some((2, 1)));
    assert_eq!(heap.pop(), Some((2, 0)));
    assert_eq!(heap.pop(), Some((2, 1)));
}
