use vstd::prelude::*;

use crate::element::{ArrayElement, ElementType, PrimitiveType};

verus! {

/// The product of the dimension sizes, the empty product being 1.
pub open spec fn dims_product(dims: Seq<i64>) -> int
    decreases dims.len(),
{
    if dims.len() == 0 {
        1
    } else {
        dims_product(dims.drop_last()) * dims.last()
    }
}

/// Whether some dimension is dynamic, which the runtime writes as a negative
/// size.
pub open spec fn has_dynamic_dim(dims: Seq<i64>) -> bool {
    exists|i: int| 0 <= i < dims.len() && #[trigger] dims[i] < 0
}

/// The number of elements of an array with these dimensions, where that is a
/// number a `usize` holds: none where a dimension is dynamic or where the
/// count exceeds `usize::MAX`.
pub open spec fn element_count_spec(dims: Seq<i64>) -> Option<usize> {
    if has_dynamic_dim(dims) || dims_product(dims) > usize::MAX {
        None
    } else {
        Some(dims_product(dims) as usize)
    }
}

/// Sizes that are all at least one have a product that is at least one and
/// grows with each further size.
proof fn lemma_product_grows(dims: Seq<i64>, k: int, m: int)
    requires
        0 <= k <= m <= dims.len(),
        forall|i: int| 0 <= i < dims.len() ==> #[trigger] dims[i] >= 1,
    ensures
        1 <= dims_product(dims.take(k)) <= dims_product(dims.take(m)),
    decreases m,
{
    if m > 0 {
        assert(dims.take(m).drop_last() =~= dims.take(m - 1));
        let last = dims.take(m).last();
        assert(last >= 1);
        if k < m {
            lemma_product_grows(dims, k, m - 1);
            let a = dims_product(dims.take(k));
            let b = dims_product(dims.take(m - 1));
            assert(a <= b * last) by (nonlinear_arith)
                requires
                    1 <= a <= b,
                    last >= 1,
            ;
        } else {
            lemma_product_grows(dims, k - 1, m - 1);
            let b = dims_product(dims.take(m - 1));
            assert(1 <= b * last) by (nonlinear_arith)
                requires
                    1 <= b,
                    last >= 1,
            ;
        }
    } else {
        assert(dims.take(0) =~= Seq::<i64>::empty());
    }
}

/// A zero size makes the whole product zero.
proof fn lemma_product_zero(dims: Seq<i64>, z: int)
    requires
        0 <= z < dims.len(),
        dims[z] == 0,
    ensures
        dims_product(dims) == 0,
    decreases dims.len(),
{
    if z < dims.len() - 1 {
        lemma_product_zero(dims.drop_last(), z);
    }
}

/// The shape of an array: its element type and its dimension sizes.
#[derive(Clone, Debug)]
pub struct ArrayShape {
    ty: ElementType,
    dims: Vec<i64>,
}

impl View for ArrayShape {
    type V = (ElementType, Seq<i64>);

    closed spec fn view(&self) -> (ElementType, Seq<i64>) {
        (self.ty, self.dims@)
    }
}

impl ArrayShape {
    /// The shape of an array of `T` values with the given dimensions.
    pub fn new<T: ArrayElement>(dims: Vec<i64>) -> (r: ArrayShape)
        ensures
            r@ == (T::ty_spec(), dims@),
    {
        ArrayShape { ty: T::ty(), dims }
    }

    /// The shape of an array of `ty` values with the given dimensions.
    pub fn new_with_type(ty: ElementType, dims: Vec<i64>) -> (r: ArrayShape)
        ensures
            r@ == (ty, dims@),
    {
        ArrayShape { ty, dims }
    }

    pub fn element_type(&self) -> (r: ElementType)
        ensures
            r == self@.0,
    {
        self.ty
    }

    pub fn ty(&self) -> (r: ElementType)
        ensures
            r == self@.0,
    {
        self.ty
    }

    pub fn primitive_type(&self) -> (r: PrimitiveType)
        ensures
            r == self@.0.primitive_spec(),
    {
        self.ty.primitive_type()
    }

    /// The dimension sizes; a negative size is a dynamic dimension.
    pub fn dims(&self) -> (r: &[i64])
        ensures
            r@ == self@.1,
    {
        self.dims.as_slice()
    }

    /// Whether some dimension is dynamic.
    pub fn is_dynamic(&self) -> (r: bool)
        ensures
            r == has_dynamic_dim(self@.1),
    {
        let mut i: usize = 0;
        while i < self.dims.len()
            invariant
                i <= self.dims.len(),
                forall|j: int| 0 <= j < i ==> self.dims@[j] >= 0,
            decreases self.dims.len() - i,
        {
            if self.dims[i] < 0 {
                return true;
            }
            i = i + 1;
        }
        false
    }

    /// The number of elements, where every dimension is static and the count
    /// fits in a `usize`.
    pub fn element_count(&self) -> (r: Option<usize>)
        ensures
            r == element_count_spec(self@.1),
    {
        let dims = &self.dims;
        let ghost d = self.dims@;
        if self.is_dynamic() {
            return None;
        }
        let mut i: usize = 0;
        while i < dims.len()
            invariant
                d == dims@,
                d == self@.1,
                i <= d.len(),
                !has_dynamic_dim(d),
                forall|j: int| 0 <= j < i ==> d[j] != 0,
            decreases d.len() - i,
        {
            if dims[i] == 0 {
                proof {
                    lemma_product_zero(d, i as int);
                }
                return Some(0);
            }
            i = i + 1;
        }
        assert forall|j: int| 0 <= j < d.len() implies #[trigger] d[j] >= 1 by {
            assert(!(d[j] < 0));
        }
        let mut acc: usize = 1;
        let mut i: usize = 0;
        while i < dims.len()
            invariant
                d == dims@,
                d == self@.1,
                i <= d.len(),
                !has_dynamic_dim(d),
                forall|j: int| 0 <= j < d.len() ==> #[trigger] d[j] >= 1,
                acc as int == dims_product(d.take(i as int)),
            decreases d.len() - i,
        {
            assert(d.take(i + 1).drop_last() =~= d.take(i as int));
            let size: u64 = dims[i] as u64;
            if size > usize::MAX as u64 {
                proof {
                    lemma_product_grows(d, i as int, i + 1);
                    lemma_product_grows(d, i + 1, d.len() as int);
                    assert(d.take(d.len() as int) =~= d);
                    assert(acc as int * size >= size) by (nonlinear_arith)
                        requires
                            acc >= 1,
                    ;
                }
                return None;
            }
            match acc.checked_mul(size as usize) {
                Some(p) => {
                    acc = p;
                },
                None => {
                    proof {
                        lemma_product_grows(d, i + 1, d.len() as int);
                        assert(d.take(d.len() as int) =~= d);
                    }
                    return None;
                },
            }
            i = i + 1;
        }
        assert(d.take(d.len() as int) =~= d);
        Some(acc)
    }
}

impl PartialEq for ArrayShape {
    fn eq(&self, o: &ArrayShape) -> (r: bool) {
        if self.ty != o.ty || self.dims.len() != o.dims.len() {
            return false;
        }
        let mut i: usize = 0;
        while i < self.dims.len()
            invariant
                i <= self.dims.len(),
                self.dims.len() == o.dims.len(),
                forall|j: int| 0 <= j < i ==> self.dims@[j] == o.dims@[j],
            decreases self.dims.len() - i,
        {
            if self.dims[i] != o.dims[i] {
                return false;
            }
            i = i + 1;
        }
        assert(self.dims@ =~= o.dims@);
        true
    }
}

impl vstd::std_specs::cmp::PartialEqSpecImpl for ArrayShape {
    open spec fn obeys_eq_spec() -> bool {
        true
    }

    open spec fn eq_spec(&self, o: &ArrayShape) -> bool {
        self@ == o@
    }
}

impl Eq for ArrayShape {
}

/// The shape of a value: an array, a tuple of shapes, or a primitive type
/// that has no array form.
#[derive(Debug, PartialEq, Eq)]
pub enum Shape {
    Tuple(Vec<Shape>),
    Array(ArrayShape),
    Unsupported(PrimitiveType),
}

impl Shape {
    /// The number of elements of a tuple shape; none for any other shape.
    pub fn tuple_size(&self) -> (r: Option<usize>)
        ensures
            match self {
                Shape::Tuple(children) => r == Some(children.len()),
                _ => r is None,
            },
    {
        match self {
            Shape::Tuple(children) => Some(children.len()),
            _ => None,
        }
    }

    /// The primitive type of the shape's values: `Tuple` for a tuple.
    pub fn primitive_type(&self) -> (r: PrimitiveType)
        ensures
            match self {
                Shape::Tuple(_) => r == PrimitiveType::Tuple,
                Shape::Array(a) => r == a@.0.primitive_spec(),
                Shape::Unsupported(p) => r == *p,
            },
    {
        match self {
            Shape::Tuple(_) => PrimitiveType::Tuple,
            Shape::Array(a) => a.primitive_type(),
            Shape::Unsupported(p) => *p,
        }
    }

    /// Whether this is a tuple shape.
    pub fn is_tuple(&self) -> (r: bool)
        ensures
            r == (self is Tuple),
    {
        match self {
            Shape::Tuple(_) => true,
            _ => false,
        }
    }

    /// The dimension sizes of an array shape; none for any other shape.
    pub fn dims(&self) -> (r: Option<&[i64]>)
        ensures
            match self {
                Shape::Array(a) => r matches Some(d) && d@ == a@.1,
                _ => r is None,
            },
    {
        match self {
            Shape::Array(a) => Some(a.dims()),
            _ => None,
        }
    }

    /// The array shape of an array; none for any other shape.
    pub fn array_shape(&self) -> (r: Option<&ArrayShape>)
        ensures
            match self {
                Shape::Array(a) => r == Some(a),
                _ => r is None,
            },
    {
        match self {
            Shape::Array(a) => Some(a),
            _ => None,
        }
    }
}

} // verus!
