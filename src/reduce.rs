use vstd::prelude::*;

verus! {

/// Whether axis `d` is among the reduced axes.
pub open spec fn reduces_axis(axes: Seq<i64>, d: int) -> bool {
    exists|k: int| 0 <= k < axes.len() && axes[k] == d
}

/// The dimension sizes that a reduction over `axes` leaves: a reduced axis is
/// dropped, or kept with size one where `keep_dims` holds; every other axis
/// keeps its size.
pub open spec fn reduced_dims_spec(dims: Seq<i64>, axes: Seq<i64>, keep_dims: bool) -> Seq<i64>
    decreases dims.len(),
{
    if dims.len() == 0 {
        Seq::empty()
    } else {
        let d = dims.len() - 1;
        let front = reduced_dims_spec(dims.drop_last(), axes, keep_dims);
        if !reduces_axis(axes, d) {
            front.push(dims.last())
        } else if keep_dims {
            front.push(1)
        } else {
            front
        }
    }
}

/// Whether `axes` holds `d`.
fn holds_axis(axes: &[i64], d: usize) -> (r: bool)
    ensures
        r == reduces_axis(axes@, d as int),
{
    let mut k: usize = 0;
    while k < axes.len()
        invariant
            k <= axes.len(),
            forall|m: int| 0 <= m < k ==> axes@[m] != d as int,
        decreases axes.len() - k,
    {
        if axes[k] >= 0 && axes[k] as u64 == d as u64 {
            return true;
        }
        k = k + 1;
    }
    false
}

/// The dimension sizes of the result of reducing an array of the given
/// dimensions over `axes`.
pub fn reduced_dims(dims: &[i64], axes: &[i64], keep_dims: bool) -> (r: Vec<i64>)
    ensures
        r@ == reduced_dims_spec(dims@, axes@, keep_dims),
{
    let mut out: Vec<i64> = Vec::new();
    let mut d: usize = 0;
    while d < dims.len()
        invariant
            d <= dims.len(),
            out@ == reduced_dims_spec(dims@.take(d as int), axes@, keep_dims),
        decreases dims.len() - d,
    {
        assert(dims@.take(d + 1).drop_last() =~= dims@.take(d as int));
        if !holds_axis(axes, d) {
            out.push(dims[d]);
        } else if keep_dims {
            out.push(1);
        }
        d = d + 1;
    }
    assert(dims@.take(dims.len() as int) =~= dims@);
    out
}

/// Reducing over every axis leaves no dimension, or, where the dimensions are
/// kept, one dimension of size one for each axis.
pub proof fn lemma_reduce_all_axes(dims: Seq<i64>, axes: Seq<i64>)
    requires
        forall|d: int| 0 <= d < dims.len() ==> #[trigger] reduces_axis(axes, d),
    ensures
        reduced_dims_spec(dims, axes, false) == Seq::<i64>::empty(),
        reduced_dims_spec(dims, axes, true) == Seq::new(dims.len(), |i: int| 1i64),
    decreases dims.len(),
{
    if dims.len() > 0 {
        let p = dims.drop_last();
        assert forall|d: int| 0 <= d < p.len() implies #[trigger] reduces_axis(axes, d) by {
            assert(reduces_axis(axes, d));
        }
        lemma_reduce_all_axes(p, axes);
        assert(reduces_axis(axes, dims.len() - 1));
        assert(Seq::new(p.len(), |i: int| 1i64).push(1) =~= Seq::new(dims.len(), |i: int| 1i64));
    }
}

/// Reducing over no axis leaves the dimensions as they are.
pub proof fn lemma_reduce_no_axes(dims: Seq<i64>, keep_dims: bool)
    ensures
        reduced_dims_spec(dims, Seq::empty(), keep_dims) == dims,
    decreases dims.len(),
{
    if dims.len() > 0 {
        lemma_reduce_no_axes(dims.drop_last(), keep_dims);
        assert(dims.drop_last().push(dims.last()) =~= dims);
    }
}

} // verus!
