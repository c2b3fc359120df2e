use vec_or_object::iter::{IntoSliceIterOrSingle, SliceIterOrSingle};
use vec_or_object::VecOrObject;

#[test]
fn borrowed_single_yields_once() {
    let c = VecOrObject::Object(42);
    let mut it = c.iter();
    assert_eq!(it.len(), 1);
    assert_eq!(it.next(), Some(&42));
    assert_eq!(it.len(), 0);
    assert_eq!(it.next(), None);
    assert_eq!(it.next(), None);
    assert_eq!(it.len(), 0);
}

#[test]
fn owned_single_yields_once() {
    let mut it = VecOrObject::Object(String::from("x")).into_iter();
    assert_eq!(it.len(), 1);
    assert_eq!(it.next(), Some(String::from("x")));
    assert_eq!(it.len(), 0);
    assert_eq!(it.next(), None);
    assert_eq!(it.len(), 0);
}

#[test]
fn borrowed_empty_list_yields_nothing() {
    let c: VecOrObject<i32> = VecOrObject::Array(vec![]);
    let mut it = SliceIterOrSingle::new(&c);
    assert_eq!(it.len(), 0);
    assert_eq!(it.next(), None);
    assert_eq!(it.len(), 0);
}

#[test]
fn owned_empty_list_yields_nothing() {
    let mut it = IntoSliceIterOrSingle::new(VecOrObject::<i32>::Array(vec![]));
    assert_eq!(it.len(), 0);
    assert_eq!(it.next(), None);
    assert_eq!(it.len(), 0);
}

#[test]
fn borrowed_list_in_order_with_exact_length() {
    let c = VecOrObject::Array(vec![1, 2, 3]);
    let mut it = c.iter();
    assert_eq!(it.len(), 3);
    assert_eq!(it.next(), Some(&1));
    assert_eq!(it.len(), 2);
    assert_eq!(it.next(), Some(&2));
    assert_eq!(it.next(), Some(&3));
    assert_eq!(it.len(), 0);
    assert_eq!(it.next(), None);
    assert_eq!(c.size(), 3);
}

#[test]
fn owned_list_in_order_with_exact_length() {
    let mut it = VecOrObject::Array(vec![7, 8, 9]).into_iter();
    assert_eq!(it.len(), 3);
    assert_eq!(it.next(), Some(7));
    assert_eq!(it.len(), 2);
    assert_eq!(it.next(), Some(8));
    assert_eq!(it.next(), Some(9));
    assert_eq!(it.len(), 0);
    assert_eq!(it.next(), None);
}

#[test]
fn owned_iterator_into_plain_iterator() {
    let mut it = VecOrObject::Array(vec![1, 2, 3]).into_iter();
    assert_eq!(it.next(), Some(1));
    let rest: Vec<i32> = it.into_vec_iter().collect();
    assert_eq!(rest, vec![2, 3]);

    let single: Vec<i32> = VecOrObject::Object(5).into_iter().into_vec_iter().collect();
    assert_eq!(single, vec![5]);

    let mut spent = VecOrObject::Object(5).into_iter();
    assert_eq!(spent.next(), Some(5));
    assert_eq!(spent.into_vec_iter().count(), 0);
    assert_eq!(VecOrObject::Object(6).into_iter().into_vec(), vec![6]);
}
