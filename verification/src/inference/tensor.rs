//! Tensors as plain data, and their division into rows.

use vstd::prelude::*;

use crate::inference::batch::{self, FloatBits};

verus! {

/// The extents and the elements of a tensor, in row-major order.
#[derive(PartialEq, Eq, Debug)]
pub struct TensorData {
    pub shape: Vec<usize>,
    pub data: Vec<FloatBits>,
}

/// The extent of the second dimension, zero where there is none.
pub open spec fn second_dim(shape: Seq<usize>) -> usize {
    if shape.len() >= 2 {
        shape[1]
    } else {
        0
    }
}

/// The extent of the second dimension, zero where there is none.
pub fn second_dim_or_zero(shape: &[usize]) -> (r: usize)
    ensures
        r == second_dim(shape@),
{
    if shape.len() >= 2 {
        shape[1]
    } else {
        0
    }
}

/// The first `count` rows of `width` consecutive elements each.
pub open spec fn rows_of(data: Seq<FloatBits>, width: nat, count: nat) -> Seq<Seq<FloatBits>>
    recommends
        count * width <= data.len(),
{
    Seq::new(count, |i: int| data.subrange(i * width, (i + 1) * width))
}

/// The first `count` rows of `width` consecutive elements each, the last of which ends where the
/// elements end.
pub open spec fn chunks_of(data: Seq<FloatBits>, width: nat, count: nat) -> Seq<Seq<FloatBits>>
    recommends
        count > 0 ==> (count - 1) * width <= data.len(),
{
    Seq::new(count, |i: int| data.subrange(i * width, chunk_end(data, width, i)))
}

/// Where row `i` ends.
pub open spec fn chunk_end(data: Seq<FloatBits>, width: nat, i: int) -> int {
    if (i + 1) * width <= data.len() {
        (i + 1) * width
    } else {
        data.len() as int
    }
}

/// The rows one after another.
pub open spec fn joined(rows: Seq<Seq<FloatBits>>) -> Seq<FloatBits>
    decreases rows.len(),
{
    if rows.len() == 0 {
        Seq::empty()
    } else {
        joined(rows.drop_last()) + rows.last()
    }
}

/// Row `i` lies within the elements.
pub proof fn lemma_row_within(i: int, width: nat, count: nat)
    requires
        0 <= i < count,
    ensures
        0 <= i * width,
        i * width + width == (i + 1) * width,
        (i + 1) * width <= count * width,
{
    assert(0 <= i * width) by (nonlinear_arith)
        requires
            0 <= i,
    ;
    assert(i * width + width == (i + 1) * width) by (nonlinear_arith);
    assert((i + 1) * width <= count * width) by (nonlinear_arith)
        requires
            i + 1 <= count,
    ;
}

/// The product of two sizes.
pub fn wide_product(a: usize, b: usize) -> (r: u128)
    ensures
        r == a * b,
{
    assert(a * b <= usize::MAX * usize::MAX) by (nonlinear_arith)
        requires
            0 <= a <= usize::MAX,
            0 <= b <= usize::MAX,
    ;
    assert(usize::MAX * usize::MAX <= u128::MAX) by (nonlinear_arith)
        requires
            usize::MAX <= 0xffff_ffff_ffff_ffff,
    ;
    a as u128 * b as u128
}

/// The first `count` rows of `width` consecutive elements each, the last of which ends where the
/// elements end.
pub fn split_chunks(data: &[FloatBits], width: usize, count: usize) -> (r: Vec<Vec<FloatBits>>)
    requires
        count > 0 ==> (count - 1) * width <= data@.len(),
    ensures
        batch::rows_view(r@) == chunks_of(data@, width as nat, count as nat),
{
    let len: usize = data.len();
    let mut out: Vec<Vec<FloatBits>> = Vec::new();
    let mut i: usize = 0;
    let mut start: usize = 0;
    while i < count
        invariant
            i <= count,
            i < count ==> start == i * width,
            len == data@.len(),
            count > 0 ==> (count - 1) * width <= len,
            out@.len() == i,
            forall|k: int|
                0 <= k < i ==> (#[trigger] out@[k])@ == data@.subrange(
                    k * width,
                    chunk_end(data@, width as nat, k),
                ),
        decreases count - i,
    {
        proof {
            lemma_row_within(i as int, width as nat, count as nat);
            lemma_row_within(count - 1, width as nat, count as nat);
            if i + 1 < count {
                lemma_row_within(i as int, width as nat, (count - 1) as nat);
            } else {
                assert(i == count - 1);
            }
        }
        let end: usize = if width <= len - start {
            start + width
        } else {
            len
        };
        let row = vstd::slice::slice_to_vec(vstd::slice::slice_subrange(data, start, end));
        out.push(row);
        start = end;
        i = i + 1;
    }
    assert(batch::rows_view(out@) =~= chunks_of(data@, width as nat, count as nat));
    out
}

/// Where the elements cover all rows, none ends early.
pub proof fn lemma_chunks_are_rows(data: Seq<FloatBits>, width: nat, count: nat)
    requires
        count * width <= data.len(),
    ensures
        chunks_of(data, width, count) == rows_of(data, width, count),
{
    assert forall|i: int| 0 <= i < count implies chunks_of(data, width, count)[i] == rows_of(
        data,
        width,
        count,
    )[i] by {
        lemma_row_within(i, width, count);
    }
    assert(chunks_of(data, width, count) =~= rows_of(data, width, count));
}

/// Row `i` of `count` rows lies within the elements: all but the last have `width` elements.
pub proof fn lemma_chunk_within(data: Seq<FloatBits>, width: nat, count: nat, i: int)
    requires
        0 <= i < count,
        (count - 1) * width <= data.len(),
    ensures
        0 <= i * width <= chunk_end(data, width, i) <= data.len(),
        chunks_of(data, width, count)[i].len() == chunk_end(data, width, i) - i * width,
        i < count - 1 ==> chunk_end(data, width, i) == i * width + width,
        i == count - 1 ==> chunk_end(data, width, i) == if i * width + width <= data.len() {
            i * width + width
        } else {
            data.len() as int
        },
{
    lemma_row_within(i, width, count);
    if i < count - 1 {
        lemma_row_within(i, width, (count - 1) as nat);
    }
}

/// The first `count` rows of `width` consecutive elements each.
pub fn split_rows(data: &[FloatBits], width: usize, count: usize) -> (r: Vec<Vec<FloatBits>>)
    requires
        count * width <= data@.len(),
    ensures
        batch::rows_view(r@) == rows_of(data@, width as nat, count as nat),
{
    proof {
        lemma_chunks_are_rows(data@, width as nat, count as nat);
        if count > 0 {
            lemma_row_within(count - 1, width as nat, count as nat);
        }
    }
    split_chunks(data, width, count)
}

/// Rows of one width, joined, lie in order: row `i` starts at `i * width`.
pub proof fn law_joined_rows_lie_in_order(rows: Seq<Seq<FloatBits>>, width: nat, i: int)
    requires
        forall|k: int| 0 <= k < rows.len() ==> (#[trigger] rows[k]).len() == width,
        0 <= i < rows.len(),
    ensures
        joined(rows).len() == rows.len() * width,
        0 <= i * width <= (i + 1) * width <= rows.len() * width,
        joined(rows).subrange(i * width, (i + 1) * width) == rows[i],
    decreases rows.len(),
{
    let shorter = rows.drop_last();
    let n = shorter.len();
    lemma_joined_len(shorter, width);
    lemma_row_within(i, width, rows.len());
    lemma_row_within(n as int, width, rows.len());
    if i < n {
        law_joined_rows_lie_in_order(shorter, width, i);
        assert(joined(rows).subrange(i * width, (i + 1) * width) =~= joined(shorter).subrange(
            i * width,
            (i + 1) * width,
        ));
    } else {
        assert(joined(rows).subrange(i * width, (i + 1) * width) =~= rows[i]);
    }
}

/// The number of elements of joined rows of one width.
proof fn lemma_joined_len(rows: Seq<Seq<FloatBits>>, width: nat)
    requires
        forall|k: int| 0 <= k < rows.len() ==> (#[trigger] rows[k]).len() == width,
    ensures
        joined(rows).len() == rows.len() * width,
    decreases rows.len(),
{
    if rows.len() == 0 {
        assert(0 * width == 0) by (nonlinear_arith);
    } else {
        let shorter = rows.drop_last();
        lemma_joined_len(shorter, width);
        lemma_row_within(shorter.len() as int, width, rows.len());
    }
}

/// Elements that the rows use up are kept: joined again, the rows give them back.
pub proof fn law_rows_keep_elements(data: Seq<FloatBits>, width: nat, count: nat)
    requires
        data.len() == count * width,
    ensures
        joined(rows_of(data, width, count)) == data,
{
    lemma_joined_prefix(data, width, count, count);
    let rows = rows_of(data, width, count);
    assert(rows.take(count as int) =~= rows);
    assert(data.take((count * width) as int) =~= data);
}

/// The first `n` rows, joined, are the first `n * width` elements.
proof fn lemma_joined_prefix(data: Seq<FloatBits>, width: nat, count: nat, n: nat)
    requires
        data.len() == count * width,
        n <= count,
    ensures
        n * width <= data.len(),
        joined(rows_of(data, width, count).take(n as int)) == data.take((n * width) as int),
    decreases n,
{
    let rows = rows_of(data, width, count);
    if n == 0 {
        assert(0 * width == 0) by (nonlinear_arith);
        assert(rows.take(0) =~= Seq::empty());
        assert(data.take(0) =~= Seq::<FloatBits>::empty());
    } else {
        let m = (n - 1) as nat;
        lemma_joined_prefix(data, width, count, m);
        lemma_row_within(m as int, width, count);
        assert(rows.take(n as int).drop_last() =~= rows.take(m as int));
        assert(rows.take(n as int).last() == data.subrange(m * width as int, n * width as int));
        assert(data.take((m * width) as int) + data.subrange(m * width as int, n * width as int)
            =~= data.take((n * width) as int));
    }
}

} // verus!
