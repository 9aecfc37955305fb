use xla::element::{ElementType, PrimitiveType};
use xla::shape::{ArrayShape, Shape};

#[test]
fn array_shape_from_host_type() {
    let s = ArrayShape::new::<i32>(vec![3]);
    assert_eq!(s.element_type(), ElementType::S32);
    assert_eq!(s.primitive_type(), PrimitiveType::S32);
    assert_eq!(s.dims(), &[3]);
    assert_eq!(s, ArrayShape::new_with_type(ElementType::S32, vec![3]));
    assert_ne!(s, ArrayShape::new::<i64>(vec![3]));
    assert_ne!(s, ArrayShape::new::<i32>(vec![3, 1]));
    assert_ne!(s, ArrayShape::new::<i32>(vec![2]));
}

#[test]
fn element_counts() {
    assert_eq!(ArrayShape::new::<u8>(vec![3, 3]).element_count(), Some(9));
    assert_eq!(ArrayShape::new::<u8>(vec![]).element_count(), Some(1));
    assert_eq!(ArrayShape::new::<u8>(vec![2, 0, 5]).element_count(), Some(0));
    assert_eq!(ArrayShape::new::<u8>(vec![2, 3, 4]).element_count(), Some(24));
}

#[test]
fn dynamic_dimensions_have_no_count() {
    let s = ArrayShape::new::<u8>(vec![-2]);
    assert!(s.is_dynamic());
    assert_eq!(s.element_count(), None);
    let s = ArrayShape::new::<u8>(vec![0, -1]);
    assert_eq!(s.element_count(), None);
    assert!(!ArrayShape::new::<u8>(vec![4]).is_dynamic());
}

#[test]
fn oversized_count_is_none() {
    let big = i64::MAX;
    assert_eq!(ArrayShape::new::<u8>(vec![big, big, big]).element_count(), None);
    assert_eq!(ArrayShape::new::<u8>(vec![big, big, 0]).element_count(), Some(0));
}

#[test]
fn tuple_sizes() {
    let t = Shape::Tuple(vec![
        Shape::Array(ArrayShape::new::<i32>(vec![])),
        Shape::Array(ArrayShape::new::<i32>(vec![2])),
    ]);
    assert_eq!(t.tuple_size(), Some(2));
    assert!(t.is_tuple());
    assert_eq!(t.primitive_type(), PrimitiveType::Tuple);
    assert_eq!(t.dims(), None);
    let a = Shape::Array(ArrayShape::new::<i32>(vec![2]));
    assert_eq!(a.tuple_size(), None);
    assert_eq!(a.dims(), Some(&[2i64][..]));
    assert_eq!(a.array_shape(), Some(&ArrayShape::new::<i32>(vec![2])));
    let u = Shape::Unsupported(PrimitiveType::Token);
    assert_eq!(u.tuple_size(), None);
    assert_eq!(u.primitive_type(), PrimitiveType::Token);
}
