use vstd::prelude::*;

verus! {

/// The rows of a two-dimensional input, each as a sequence.
pub open spec fn rows_view<T>(rows: &[&[T]]) -> Seq<Seq<T>> {
    rows@.map_values(|row: &[T]| row@)
}

/// Whether every row has the same length as the first.
pub open spec fn is_rectangular<T>(rows: Seq<Seq<T>>) -> bool {
    forall|i: int| 0 <= i < rows.len() ==> #[trigger] rows[i].len() == rows[0].len()
}

/// The number of columns of a two-dimensional input: the length of its first
/// row, or zero where it has no row.
pub open spec fn column_count<T>(rows: Seq<Seq<T>>) -> nat {
    if rows.len() == 0 {
        0
    } else {
        rows[0].len()
    }
}

/// The rows laid one after the other: the row-major order of the values.
pub open spec fn concat_rows<T>(rows: Seq<Seq<T>>) -> Seq<T>
    decreases rows.len(),
{
    if rows.len() == 0 {
        Seq::empty()
    } else {
        concat_rows(rows.drop_last()) + rows.last()
    }
}

/// Lays out a two-dimensional input in row-major order, with its number of
/// columns, where all rows have the same length; none where they do not.
pub fn row_major<T: Copy>(rows: &[&[T]]) -> (r: Option<(usize, Vec<T>)>)
    ensures
        r is Some <==> is_rectangular(rows_view(rows)),
        r matches Some((cols, data)) ==> cols == column_count(rows_view(rows)) && data@
            == concat_rows(rows_view(rows)),
{
    let ghost rv = rows_view(rows);
    let cols: usize = if rows.len() == 0 {
        0
    } else {
        rows[0].len()
    };
    let mut i: usize = 0;
    while i < rows.len()
        invariant
            rv == rows_view(rows),
            i <= rows.len(),
            cols == column_count(rv),
            forall|k: int| 0 <= k < i ==> #[trigger] rv[k].len() == cols,
        decreases rows.len() - i,
    {
        if rows[i].len() != cols {
            assert(rv[i as int] == rows@[i as int]@);
            assert(rv[i as int].len() != rv[0].len());
            return None;
        }
        i = i + 1;
    }
    let mut data: Vec<T> = Vec::new();
    let mut i: usize = 0;
    while i < rows.len()
        invariant
            rv == rows_view(rows),
            i <= rows.len(),
            data@ == concat_rows(rv.take(i as int)),
        decreases rows.len() - i,
    {
        let row: &[T] = rows[i];
        let mut j: usize = 0;
        while j < row.len()
            invariant
                rv == rows_view(rows),
                i < rows.len(),
                row@ == rv[i as int],
                j <= row.len(),
                data@ == concat_rows(rv.take(i as int)) + row@.take(j as int),
            decreases row.len() - j,
        {
            data.push(row[j]);
            assert(row@.take(j + 1) =~= row@.take(j as int).push(row@[j as int]));
            j = j + 1;
        }
        assert(rv.take(i + 1).drop_last() =~= rv.take(i as int));
        assert(row@.take(j as int) =~= row@);
        i = i + 1;
    }
    assert(rv.take(rows.len() as int) =~= rv);
    Some((cols, data))
}

/// Rows that all have `c` values lay out as `rows.len() * c` values, the value
/// in row `i` and column `j` standing at `i * c + j`.
pub proof fn lemma_concat_rows_layout<T>(rows: Seq<Seq<T>>, c: nat)
    requires
        forall|i: int| 0 <= i < rows.len() ==> #[trigger] rows[i].len() == c,
    ensures
        concat_rows(rows).len() == rows.len() * c,
        forall|i: int, j: int|
            0 <= i < rows.len() && 0 <= j < c ==> concat_rows(rows)[i * c + j] == #[trigger] rows[i][j],
    decreases rows.len(),
{
    if rows.len() > 0 {
        let p = rows.drop_last();
        let n = rows.len();
        lemma_concat_rows_layout(p, c);
        assert(concat_rows(rows).len() == n * c) by (nonlinear_arith)
            requires
                concat_rows(rows).len() == (n - 1) * c + c,
        ;
        assert forall|i: int, j: int| 0 <= i < n && 0 <= j < c implies concat_rows(rows)[i * c + j]
            == #[trigger] rows[i][j] by {
            if i < n - 1 {
                assert(i * c + j < (n - 1) * c) by (nonlinear_arith)
                    requires
                        0 <= i < n - 1,
                        0 <= j < c,
                ;
                assert(p[i] == rows[i]);
            } else {
                assert(i * c + j == (n - 1) * c + j) by (nonlinear_arith)
                    requires
                        i == n - 1,
                ;
            }
        }
    }
}

/// Every rectangular input lays out as rows times columns values in row-major
/// order: the value in row `i` and column `j` stands at `i * columns + j`.
pub proof fn lemma_row_major_layout<T>(rows: Seq<Seq<T>>)
    requires
        is_rectangular(rows),
    ensures
        concat_rows(rows).len() == rows.len() * column_count(rows),
        forall|i: int, j: int|
            0 <= i < rows.len() && 0 <= j < column_count(rows) ==> concat_rows(rows)[i
                * column_count(rows) + j] == #[trigger] rows[i][j],
{
    lemma_concat_rows_layout(rows, column_count(rows));
}

} // verus!
