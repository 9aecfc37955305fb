use vstd::prelude::*;

use crate::error::Error;

verus! {

/// The primitive types known to the runtime. `S8` is a signed one-byte
/// integer, `U32` an unsigned four-byte integer, and so on. `Tuple`,
/// `OpaqueType`, `Token` and `Invalid` are structural markers, not element
/// types.
#[derive(Clone, Copy, PartialEq, Eq, Debug, Structural)]
pub enum PrimitiveType {
    Invalid,
    Pred,
    S8,
    S16,
    S32,
    S64,
    U8,
    U16,
    U32,
    U64,
    F16,
    F32,
    Bf16,
    F64,
    C64,
    C128,
    Tuple,
    OpaqueType,
    Token,
}

/// The primitive types that an array can hold.
#[derive(Clone, Copy, PartialEq, Eq, Debug, Structural)]
pub enum ElementType {
    Pred,
    S8,
    S16,
    S32,
    S64,
    U8,
    U16,
    U32,
    U64,
    F16,
    F32,
    Bf16,
    F64,
    C64,
    C128,
}


impl PrimitiveType {
    /// The runtime's numeric code for this type.
    pub open spec fn code_spec(self) -> i32 {
        match self {
            Self::Invalid => 0,
            Self::Pred => 1,
            Self::S8 => 2,
            Self::S16 => 3,
            Self::S32 => 4,
            Self::S64 => 5,
            Self::U8 => 6,
            Self::U16 => 7,
            Self::U32 => 8,
            Self::U64 => 9,
            Self::F16 => 10,
            Self::F32 => 11,
            Self::Bf16 => 16,
            Self::F64 => 12,
            Self::C64 => 15,
            Self::C128 => 18,
            Self::Tuple => 13,
            Self::OpaqueType => 14,
            Self::Token => 17,
        }
    }

    /// Whether this type is one of the structural markers.
    pub open spec fn is_structural(self) -> bool {
        self == PrimitiveType::Invalid || self == PrimitiveType::Tuple
            || self == PrimitiveType::OpaqueType || self == PrimitiveType::Token
    }

    /// The runtime's numeric code for this type.
    pub fn code(&self) -> (r: i32)
        ensures
            r == self.code_spec(),
    {
        match self {
            Self::Invalid => 0,
            Self::Pred => 1,
            Self::S8 => 2,
            Self::S16 => 3,
            Self::S32 => 4,
            Self::S64 => 5,
            Self::U8 => 6,
            Self::U16 => 7,
            Self::U32 => 8,
            Self::U64 => 9,
            Self::F16 => 10,
            Self::F32 => 11,
            Self::Bf16 => 16,
            Self::F64 => 12,
            Self::C64 => 15,
            Self::C128 => 18,
            Self::Tuple => 13,
            Self::OpaqueType => 14,
            Self::Token => 17,
        }
    }

    /// The type that the runtime denotes by `code`, if any.
    pub fn from_code(code: i32) -> (r: Option<PrimitiveType>)
        ensures
            match r {
                Some(p) => p.code_spec() == code,
                None => code < 0 || code > 18,
            },
    {
        match code {
            0 => Some(PrimitiveType::Invalid),
            1 => Some(PrimitiveType::Pred),
            2 => Some(PrimitiveType::S8),
            3 => Some(PrimitiveType::S16),
            4 => Some(PrimitiveType::S32),
            5 => Some(PrimitiveType::S64),
            6 => Some(PrimitiveType::U8),
            7 => Some(PrimitiveType::U16),
            8 => Some(PrimitiveType::U32),
            9 => Some(PrimitiveType::U64),
            10 => Some(PrimitiveType::F16),
            11 => Some(PrimitiveType::F32),
            12 => Some(PrimitiveType::F64),
            13 => Some(PrimitiveType::Tuple),
            14 => Some(PrimitiveType::OpaqueType),
            15 => Some(PrimitiveType::C64),
            16 => Some(PrimitiveType::Bf16),
            17 => Some(PrimitiveType::Token),
            18 => Some(PrimitiveType::C128),
            _ => None,
        }
    }

    /// The element type that this primitive type denotes; structural markers
    /// have none.
    pub fn element_type(self) -> (r: Result<ElementType, Error>)
        ensures
            self.is_structural() ==> r == Err::<ElementType, Error>(Error::NotAnElementType { got: self }),
            !self.is_structural() ==> (r matches Ok(e) && e.primitive_spec() == self),
    {
        match self {
            Self::Pred => Ok(ElementType::Pred),
            Self::S8 => Ok(ElementType::S8),
            Self::S16 => Ok(ElementType::S16),
            Self::S32 => Ok(ElementType::S32),
            Self::S64 => Ok(ElementType::S64),
            Self::U8 => Ok(ElementType::U8),
            Self::U16 => Ok(ElementType::U16),
            Self::U32 => Ok(ElementType::U32),
            Self::U64 => Ok(ElementType::U64),
            Self::F16 => Ok(ElementType::F16),
            Self::F32 => Ok(ElementType::F32),
            Self::Bf16 => Ok(ElementType::Bf16),
            Self::F64 => Ok(ElementType::F64),
            Self::C64 => Ok(ElementType::C64),
            Self::C128 => Ok(ElementType::C128),
            Self::Invalid | Self::Tuple | Self::OpaqueType | Self::Token => {
                Err(Error::NotAnElementType { got: self })
            },
        }
    }
}

impl ElementType {
    /// The size of one element of this type, in bytes.
    pub open spec fn size_spec(self) -> nat {
        match self {
            Self::Pred => 1,
            Self::S8 => 1,
            Self::S16 => 2,
            Self::S32 => 4,
            Self::S64 => 8,
            Self::U8 => 1,
            Self::U16 => 2,
            Self::U32 => 4,
            Self::U64 => 8,
            Self::F16 => 2,
            Self::F32 => 4,
            Self::Bf16 => 2,
            Self::F64 => 8,
            Self::C64 => 8,
            Self::C128 => 16,
        }
    }

    /// The primitive type that this element type stands for.
    pub open spec fn primitive_spec(self) -> PrimitiveType {
        match self {
            Self::Pred => PrimitiveType::Pred,
            Self::S8 => PrimitiveType::S8,
            Self::S16 => PrimitiveType::S16,
            Self::S32 => PrimitiveType::S32,
            Self::S64 => PrimitiveType::S64,
            Self::U8 => PrimitiveType::U8,
            Self::U16 => PrimitiveType::U16,
            Self::U32 => PrimitiveType::U32,
            Self::U64 => PrimitiveType::U64,
            Self::F16 => PrimitiveType::F16,
            Self::F32 => PrimitiveType::F32,
            Self::Bf16 => PrimitiveType::Bf16,
            Self::F64 => PrimitiveType::F64,
            Self::C64 => PrimitiveType::C64,
            Self::C128 => PrimitiveType::C128,
        }
    }

    /// The size of one element of this type, in bytes.
    pub fn element_size_in_bytes(&self) -> (r: usize)
        ensures
            r as nat == self.size_spec(),
    {
        match self {
            Self::Pred => 1,
            Self::S8 => 1,
            Self::S16 => 2,
            Self::S32 => 4,
            Self::S64 => 8,
            Self::U8 => 1,
            Self::U16 => 2,
            Self::U32 => 4,
            Self::U64 => 8,
            Self::F16 => 2,
            Self::F32 => 4,
            Self::Bf16 => 2,
            Self::F64 => 8,
            Self::C64 => 8,
            Self::C128 => 16,
        }
    }

    /// The primitive type that this element type stands for.
    pub fn primitive_type(&self) -> (r: PrimitiveType)
        ensures
            r == self.primitive_spec(),
            !r.is_structural(),
    {
        match self {
            Self::Pred => PrimitiveType::Pred,
            Self::S8 => PrimitiveType::S8,
            Self::S16 => PrimitiveType::S16,
            Self::S32 => PrimitiveType::S32,
            Self::S64 => PrimitiveType::S64,
            Self::U8 => PrimitiveType::U8,
            Self::U16 => PrimitiveType::U16,
            Self::U32 => PrimitiveType::U32,
            Self::U64 => PrimitiveType::U64,
            Self::F16 => PrimitiveType::F16,
            Self::F32 => PrimitiveType::F32,
            Self::Bf16 => PrimitiveType::Bf16,
            Self::F64 => PrimitiveType::F64,
            Self::C64 => PrimitiveType::C64,
            Self::C128 => PrimitiveType::C128,
        }
    }
}

/// The element type that the runtime denotes by `code`: an error where the
/// code names no primitive type, or a structural one.
pub fn element_type_of_code(code: i32) -> (r: Result<ElementType, Error>)
    ensures
        (code < 0 || code > 18) ==> r == Err::<ElementType, Error>(Error::UnexpectedElementType(code)),
        0 <= code <= 18 ==> match r {
            Ok(e) => e.primitive_spec().code_spec() == code,
            Err(Error::NotAnElementType { got }) => got.code_spec() == code && got.is_structural(),
            _ => false,
        },
{
    match PrimitiveType::from_code(code) {
        None => Err(Error::UnexpectedElementType(code)),
        Some(p) => p.element_type(),
    }
}

/// Checks that values of element type `on_literal` can be read as `T`.
pub fn check_element_type<T: ArrayElement>(on_literal: ElementType) -> (r: Result<(), Error>)
    ensures
        on_literal == T::ty_spec() ==> r is Ok,
        on_literal != T::ty_spec() ==> r == Err::<(), Error>(
            Error::ElementTypeMismatch { on_literal, on_host: T::ty_spec() },
        ),
{
    let on_host = T::ty();
    if on_literal == on_host {
        Ok(())
    } else {
        Err(Error::ElementTypeMismatch { on_literal, on_host })
    }
}

/// Every element type survives the trip to its primitive type and back, and
/// no two element types share a primitive type.
pub proof fn lemma_element_primitive_round_trip(e: ElementType, f: ElementType)
    ensures
        !e.primitive_spec().is_structural(),
        e.primitive_spec() == f.primitive_spec() ==> e == f,
{
}

/// Every primitive type survives the trip to its code and back, and no two
/// primitive types share a code.
pub proof fn lemma_code_round_trip(p: PrimitiveType, q: PrimitiveType)
    ensures
        0 <= p.code_spec() <= 18,
        p.code_spec() == q.code_spec() ==> p == q,
{
}

/// Binds a host value type to the element type that the runtime uses for it.
pub trait ArrayElement: Copy + Sized {
    /// The element type of this host type.
    spec fn ty_spec() -> ElementType;

    /// The additive identity of this host type.
    spec fn zero_spec() -> Self;

    /// The element type of this host type.
    fn ty() -> (r: ElementType)
        ensures
            r == Self::ty_spec(),
    ;

    /// The size of one value, in bytes, as the runtime stores it.
    fn element_size_in_bytes() -> (r: usize)
        ensures
            r as nat == Self::ty_spec().size_spec(),
    ;

    /// The additive identity of this host type.
    fn zero() -> (r: Self)
        ensures
            r == Self::zero_spec(),
    ;
}

/// A half-precision float: the host has no value of it, only the type.
#[derive(Clone, Copy, Debug)]
pub struct F16;

/// A brain float: the host has no value of it, only the type.
#[derive(Clone, Copy, Debug)]
pub struct Bf16;

impl ArrayElement for u8 {
    open spec fn ty_spec() -> ElementType {
        ElementType::U8
    }

    open spec fn zero_spec() -> Self {
        0u8
    }

    fn ty() -> (r: ElementType) {
        ElementType::U8
    }

    fn element_size_in_bytes() -> (r: usize) {
        1
    }

    fn zero() -> (r: Self) {
        0u8
    }
}

impl ArrayElement for u16 {
    open spec fn ty_spec() -> ElementType {
        ElementType::U16
    }

    open spec fn zero_spec() -> Self {
        0u16
    }

    fn ty() -> (r: ElementType) {
        ElementType::U16
    }

    fn element_size_in_bytes() -> (r: usize) {
        2
    }

    fn zero() -> (r: Self) {
        0u16
    }
}

impl ArrayElement for u32 {
    open spec fn ty_spec() -> ElementType {
        ElementType::U32
    }

    open spec fn zero_spec() -> Self {
        0u32
    }

    fn ty() -> (r: ElementType) {
        ElementType::U32
    }

    fn element_size_in_bytes() -> (r: usize) {
        4
    }

    fn zero() -> (r: Self) {
        0u32
    }
}

impl ArrayElement for u64 {
    open spec fn ty_spec() -> ElementType {
        ElementType::U64
    }

    open spec fn zero_spec() -> Self {
        0u64
    }

    fn ty() -> (r: ElementType) {
        ElementType::U64
    }

    fn element_size_in_bytes() -> (r: usize) {
        8
    }

    fn zero() -> (r: Self) {
        0u64
    }
}

impl ArrayElement for i8 {
    open spec fn ty_spec() -> ElementType {
        ElementType::S8
    }

    open spec fn zero_spec() -> Self {
        0i8
    }

    fn ty() -> (r: ElementType) {
        ElementType::S8
    }

    fn element_size_in_bytes() -> (r: usize) {
        1
    }

    fn zero() -> (r: Self) {
        0i8
    }
}

impl ArrayElement for i16 {
    open spec fn ty_spec() -> ElementType {
        ElementType::S16
    }

    open spec fn zero_spec() -> Self {
        0i16
    }

    fn ty() -> (r: ElementType) {
        ElementType::S16
    }

    fn element_size_in_bytes() -> (r: usize) {
        2
    }

    fn zero() -> (r: Self) {
        0i16
    }
}

impl ArrayElement for i32 {
    open spec fn ty_spec() -> ElementType {
        ElementType::S32
    }

    open spec fn zero_spec() -> Self {
        0i32
    }

    fn ty() -> (r: ElementType) {
        ElementType::S32
    }

    fn element_size_in_bytes() -> (r: usize) {
        4
    }

    fn zero() -> (r: Self) {
        0i32
    }
}

impl ArrayElement for i64 {
    open spec fn ty_spec() -> ElementType {
        ElementType::S64
    }

    open spec fn zero_spec() -> Self {
        0i64
    }

    fn ty() -> (r: ElementType) {
        ElementType::S64
    }

    fn element_size_in_bytes() -> (r: usize) {
        8
    }

    fn zero() -> (r: Self) {
        0i64
    }
}

impl ArrayElement for F16 {
    open spec fn ty_spec() -> ElementType {
        ElementType::F16
    }

    open spec fn zero_spec() -> Self {
        F16
    }

    fn ty() -> (r: ElementType) {
        ElementType::F16
    }

    fn element_size_in_bytes() -> (r: usize) {
        2
    }

    fn zero() -> (r: Self) {
        F16
    }
}

impl ArrayElement for Bf16 {
    open spec fn ty_spec() -> ElementType {
        ElementType::Bf16
    }

    open spec fn zero_spec() -> Self {
        Bf16
    }

    fn ty() -> (r: ElementType) {
        ElementType::Bf16
    }

    fn element_size_in_bytes() -> (r: usize) {
        2
    }

    fn zero() -> (r: Self) {
        Bf16
    }
}

} // verus!
