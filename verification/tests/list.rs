#![allow(non_snake_case)]

use structures::list::List;

fn drain_list<T>(list: List<T>) -> Vec<T> {
    let mut iter = list.into_iter();
    let mut items = Vec::new();
    while let Some(item) = iter.next() {
        items.push(item);
    }
    items
}

#[test]
fn list_List_new() {
    let new_list: List<u32> = List::new();
    let list = List::Nil;
    assert_eq!(new_list, list);
}

#[test]
fn list_List_is_empty() {
    let is_empty_list = List::new();
    assert!(is_empty_list.is_empty());
    let is_empty_list = is_empty_list.push(1);
    assert!(!is_empty_list.is_empty());
}

#[test]
fn list_List_len() {
    let len_list = List::new().push(1).push(2).push(3);
    assert_eq!(len_list.len(), 3);
}

#[test]
fn list_List_push() {
    let push_list = List::new().push(1).push(2);
    let list = List::Cons(2, Box::new(List::Cons(1, Box::new(List::Nil))));
    assert_eq!(push_list, list);
}

#[test]
fn list_List_pop() {
    let (item, pop_list) = List::new().push(1).push(2).pop().unwrap();
    let list = List::Cons(1, Box::new(List::Nil));
    assert_eq!(item, 2);
    assert_eq!(pop_list, list);
}

#[test]
fn list_List_insert_in_bounds() {
    let list = List::new().push(4).push(3).push(1).insert(1, 2).unwrap();
    assert_eq!(drain_list(list), vec![1, 2, 3, 4]);
}

#[test]
fn list_List_insert_at_bounds() {
    let list = List::new().push(2).insert(1, 12).unwrap();
    assert_eq!(list, List::new().push(12).push(2));
}

#[test]
fn list_List_insert_out_of_bounds() {
    let list = List::new().push(2).insert(2, 12).unwrap_err();
    assert_eq!(list, List::new().push(2));
}

#[test]
fn list_List_remove_in_bounds() {
    let (item, list) = List::new().push(4).push(3).push(2)
                                  .push(1).remove(1).unwrap();
    assert_eq!(item, 2);
    assert_eq!(drain_list(list), vec![1, 3, 4]);
}

#[test]
fn list_List_remove_at_bounds() {
    let (item, list) = List::new().push(4).push(3).push(2)
                                  .push(1).remove(3).unwrap();
    assert_eq!(item, 4);
    assert_eq!(drain_list(list), vec![1, 2, 3]);
}

#[test]
fn list_List_remove_out_of_bounds() {
    let list = List::new().push(2).remove(1).unwrap_err();
    assert_eq!(list, List::new().push(2));
}

#[test]
fn list_List_append() {}

#[test]
fn list_Iter() {
    let list: List<u32> = List::new().push(1).push(2).push(3);
    let mut iter = list.iter();
    while let Some(i) = iter.next() {
        assert!((1 <= *i) && (*i <= 3));
    }
}

#[test]
fn list_IntoIter() {
    let list: List<u32> = List::new().push(1).push(2).push(3);
    assert_eq!(drain_list(list), vec![3, 2, 1]);
}

#[test]
fn list_iter_yields_every_item_in_order() {
    let list: List<u32> = List::new().push(1).push(2).push(3);
    let mut iter = list.iter();
    assert_eq!(iter.next(), Some(&3));
    assert_eq!(iter.next(), Some(&2));
    assert_eq!(iter.next(), Some(&1));
    assert_eq!(iter.next(), None);
    assert_eq!(iter.next(), None);
    assert_eq!(list.len(), 3);
}

#[test]
fn list_into_iter_of_empty_list_ends_at_once() {
    let list: List<u32> = List::new();
    let mut iter = list.into_iter();
    assert_eq!(iter.next(), None);
}

#[test]
fn list_len_of_empty_list_is_zero() {
    let list: List<u8> = List::new();
    assert_eq!(list.len(), 0);
}

#[test]
fn list_pop_of_empty_list_is_none() {
    let list: List<u8> = List::new();
    assert_eq!(list.pop(), None);
}

#[test]
fn list_insert_at_front_is_push() {
    let list = List::new().push(2).push(1).insert(0, 0).unwrap();
    assert_eq!(list, List::new().push(2).push(1).push(0));
}

#[test]
fn list_insert_into_empty_list() {
    let list = List::new().insert(0, 7).unwrap();
    assert_eq!(list, List::new().push(7));
    let list: List<i32> = List::new().insert(1, 7).unwrap_err();
    assert_eq!(list, List::Nil);
}

#[test]
fn list_remove_first_is_pop() {
    let (item, list) = List::new().push(2).push(1).remove(0).unwrap();
    assert_eq!(item, 1);
    assert_eq!(list, List::new().push(2));
}

#[test]
fn list_remove_from_empty_list() {
    let list: List<i32> = List::new().remove(0).unwrap_err();
    assert_eq!(list, List::Nil);
}

#[test]
fn list_insert_then_remove_gives_the_list_back() {
    let list = List::new().push(3).push(2).push(1);
    let list = list.insert(2, 42).unwrap();
    assert_eq!(drain_list(list.clone()), vec![1, 2, 42, 3]);
    let (item, list) = list.remove(2).unwrap();
    assert_eq!(item, 42);
    assert_eq!(list, List::new().push(3).push(2).push(1));
}

#[test]
fn list_from_iter_pushes_in_turn() {
    let list = List::from_iter(vec![0, 1, 2, 3]);
    assert_eq!(list, List::new().push(0).push(1).push(2).push(3));
    assert_eq!(drain_list(list), vec![3, 2, 1, 0]);
    let empty: List<u8> = List::from_iter(Vec::new());
    assert_eq!(empty, List::Nil);
}

#[test]
fn list_clone_is_equal() {
    let list = List::new().push("bye").push("hi");
    let copy = list.clone();
    assert_eq!(copy, list);
    let (first, rest) = list.pop().unwrap();
    assert_eq!(first, "hi");
    assert_eq!(rest, List::new().push("bye"));
    assert_eq!(copy.len(), 2);
}
