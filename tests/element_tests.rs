use xla::element::{
    check_element_type, element_type_of_code, ArrayElement, Bf16, ElementType, PrimitiveType, F16,
};
use xla::error::Error;

#[test]
fn element_type_of_each_primitive() {
    assert_eq!(PrimitiveType::Pred.element_type(), Ok(ElementType::Pred));
    assert_eq!(PrimitiveType::S32.element_type(), Ok(ElementType::S32));
    assert_eq!(PrimitiveType::U64.element_type(), Ok(ElementType::U64));
    assert_eq!(PrimitiveType::Bf16.element_type(), Ok(ElementType::Bf16));
    assert_eq!(PrimitiveType::C128.element_type(), Ok(ElementType::C128));
}

#[test]
fn structural_markers_are_not_element_types() {
    for p in [
        PrimitiveType::Invalid,
        PrimitiveType::Tuple,
        PrimitiveType::OpaqueType,
        PrimitiveType::Token,
    ] {
        assert_eq!(p.element_type(), Err(Error::NotAnElementType { got: p }));
    }
}

#[test]
fn element_sizes() {
    assert_eq!(ElementType::Pred.element_size_in_bytes(), 1);
    assert_eq!(ElementType::S8.element_size_in_bytes(), 1);
    assert_eq!(ElementType::S16.element_size_in_bytes(), 2);
    assert_eq!(ElementType::F16.element_size_in_bytes(), 2);
    assert_eq!(ElementType::Bf16.element_size_in_bytes(), 2);
    assert_eq!(ElementType::U32.element_size_in_bytes(), 4);
    assert_eq!(ElementType::F32.element_size_in_bytes(), 4);
    assert_eq!(ElementType::S64.element_size_in_bytes(), 8);
    assert_eq!(ElementType::C64.element_size_in_bytes(), 8);
    assert_eq!(ElementType::C128.element_size_in_bytes(), 16);
}

#[test]
fn element_primitive_round_trip() {
    let all = [
        ElementType::Pred,
        ElementType::S8,
        ElementType::S16,
        ElementType::S32,
        ElementType::S64,
        ElementType::U8,
        ElementType::U16,
        ElementType::U32,
        ElementType::U64,
        ElementType::F16,
        ElementType::F32,
        ElementType::Bf16,
        ElementType::F64,
        ElementType::C64,
        ElementType::C128,
    ];
    for e in all {
        assert_eq!(e.primitive_type().element_type(), Ok(e));
    }
    assert_eq!(ElementType::F64.primitive_type(), PrimitiveType::F64);
}

#[test]
fn primitive_codes() {
    assert_eq!(PrimitiveType::Invalid.code(), 0);
    assert_eq!(PrimitiveType::F64.code(), 12);
    assert_eq!(PrimitiveType::Tuple.code(), 13);
    assert_eq!(PrimitiveType::Bf16.code(), 16);
    assert_eq!(PrimitiveType::C128.code(), 18);
    for c in 0..=18 {
        let p = PrimitiveType::from_code(c).unwrap();
        assert_eq!(p.code(), c);
    }
    assert_eq!(PrimitiveType::from_code(16), Some(PrimitiveType::Bf16));
    assert_eq!(PrimitiveType::from_code(-1), None);
    assert_eq!(PrimitiveType::from_code(19), None);
}

#[test]
fn element_type_from_codes() {
    assert_eq!(element_type_of_code(11), Ok(ElementType::F32));
    assert_eq!(
        element_type_of_code(13),
        Err(Error::NotAnElementType { got: PrimitiveType::Tuple })
    );
    assert_eq!(element_type_of_code(42), Err(Error::UnexpectedElementType(42)));
}

#[test]
fn host_types_map_to_element_types() {
    assert_eq!(<u8 as ArrayElement>::ty(), ElementType::U8);
    assert_eq!(<i16 as ArrayElement>::ty(), ElementType::S16);
    assert_eq!(<i32 as ArrayElement>::ty(), ElementType::S32);
    assert_eq!(<u64 as ArrayElement>::ty(), ElementType::U64);
    assert_eq!(<F16 as ArrayElement>::ty(), ElementType::F16);
    assert_eq!(<Bf16 as ArrayElement>::ty(), ElementType::Bf16);
    assert_eq!(<i64 as ArrayElement>::element_size_in_bytes(), 8);
    assert_eq!(<u16 as ArrayElement>::element_size_in_bytes(), 2);
    assert_eq!(<Bf16 as ArrayElement>::element_size_in_bytes(), 2);
    assert_eq!(<i32 as ArrayElement>::zero(), 0);
    assert_eq!(<u8 as ArrayElement>::zero(), 0);
}

#[test]
fn element_type_check_against_host() {
    assert_eq!(check_element_type::<i32>(ElementType::S32), Ok(()));
    assert_eq!(
        check_element_type::<i32>(ElementType::U32),
        Err(Error::ElementTypeMismatch { on_literal: ElementType::U32, on_host: ElementType::S32 })
    );
}
