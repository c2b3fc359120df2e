use vec_or_object::wire::{Wire, WireRef};
use vec_or_object::VecOrObject;

fn encodes_bare(c: &VecOrObject<i32>, expected: i32) -> bool {
    matches!(c.to_wire(), WireRef::Bare(x) if *x == expected)
}

#[test]
fn list_of_two_or_more_round_trips() {
    let c = VecOrObject::Array(vec![1, 2, 3]);
    match c.to_wire() {
        WireRef::Array(s) => assert_eq!(s, &[1, 2, 3]),
        WireRef::Bare(_) => panic!("expected an array"),
    }
    let back = VecOrObject::from_wire(c.clone().into_wire());
    assert_eq!(back, c);
}

#[test]
fn single_round_trips() {
    let c = VecOrObject::Object(4);
    assert!(encodes_bare(&c, 4));
    assert_eq!(VecOrObject::from_wire(c.clone().into_wire()), c);
}

#[test]
fn one_element_list_encodes_as_single() {
    let list = VecOrObject::Array(vec![4]);
    let single = VecOrObject::Object(4);
    assert!(encodes_bare(&list, 4));
    assert!(encodes_bare(&single, 4));
    assert!(matches!(list.clone().into_wire(), Wire::Bare(4)));
    assert_eq!(VecOrObject::from_wire(list.into_wire()), single);
}

#[test]
fn empty_list_encodes_as_array() {
    let c: VecOrObject<i32> = VecOrObject::Array(vec![]);
    assert!(matches!(c.to_wire(), WireRef::Array(s) if s.is_empty()));
    assert_eq!(VecOrObject::from_wire(c.clone().into_wire()), c);
}

#[test]
fn absent_decodes_to_empty_list() {
    let c: VecOrObject<i32> = VecOrObject::from_wire(Wire::Absent);
    assert_eq!(c, VecOrObject::Array(vec![]));
    assert_eq!(c.size(), 0);
    assert!(c.is_empty());
}

#[test]
fn decode_each_shape() {
    assert_eq!(VecOrObject::from_wire(Wire::Bare(3)), VecOrObject::Object(3));
    assert_eq!(VecOrObject::from_wire(Wire::Array(vec![3])), VecOrObject::Object(3));
    assert_eq!(
        VecOrObject::from_wire(Wire::Array(vec![3, 4])),
        VecOrObject::Array(vec![3, 4])
    );
    assert_eq!(VecOrObject::<i32>::from_wire(Wire::Array(vec![])), VecOrObject::Array(vec![]));
}

#[test]
fn decode_in_place_reuses_list_storage() {
    let mut c = VecOrObject::Array(Vec::with_capacity(16));
    let before = match &c {
        VecOrObject::Array(v) => v.as_ptr(),
        VecOrObject::Object(_) => panic!("expected a list"),
    };
    c.decode_in_place(Wire::Array(vec![5, 6, 7]));
    match &c {
        VecOrObject::Array(v) => {
            assert_eq!(v, &vec![5, 6, 7]);
            assert_eq!(v.as_ptr(), before);
        }
        VecOrObject::Object(_) => panic!("expected a list"),
    }
}

#[test]
fn decode_in_place_each_shape() {
    let mut c = VecOrObject::Array(vec![1, 2]);
    c.decode_in_place(Wire::Absent);
    assert_eq!(c, VecOrObject::Array(vec![]));
    c.decode_in_place(Wire::Array(vec![9]));
    assert_eq!(c, VecOrObject::Object(9));
    c.decode_in_place(Wire::Array(vec![1, 2]));
    assert_eq!(c, VecOrObject::Array(vec![1, 2]));
    c.decode_in_place(Wire::Bare(3));
    assert_eq!(c, VecOrObject::Object(3));
    c.decode_in_place(Wire::Absent);
    assert_eq!(c, VecOrObject::Array(vec![]));
}

#[test]
fn streamed_array_in_place() {
    let mut c = VecOrObject::Object(0);
    c.start_array_in_place();
    assert_eq!(c, VecOrObject::Array(vec![]));
    c.push_in_place(1);
    c.finish_array_in_place();
    assert_eq!(c, VecOrObject::Object(1));

    let mut d = VecOrObject::Array(vec![8, 8, 8]);
    d.start_array_in_place();
    d.push_in_place(1);
    d.push_in_place(2);
    d.finish_array_in_place();
    assert_eq!(d, VecOrObject::Array(vec![1, 2]));
}
