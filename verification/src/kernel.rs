//! The two multiplication kernels.

use rayon::iter::{IndexedParallelIterator, ParallelIterator};
use rayon::slice::ParallelSliceMut;
use vstd::prelude::*;
use crate::layout::{
    flat_index,
    index_of,
    lemma_flat_index_inverse,
    matrix_len,
    row_of,
    CapacityOverflow,
};
use crate::product::{dot_prefix, entry, lemma_rows_make_product, product, product_row};
use crate::scalar::Scalar;

verus! {

/// What a kernel owes its caller for the operands `a` and `b` of dimension
/// `n`: the product, or the capacity error exactly when `n * n` elements
/// cannot be addressed.
pub open spec fn kernel_outcome<T: Scalar>(
    a: Seq<T>,
    b: Seq<T>,
    n: usize,
    r: Result<Vec<T>, CapacityOverflow>,
) -> bool {
    if n * n <= usize::MAX {
        r matches Ok(c) && c@ == product(a, b, n as int)
    } else {
        r == Err::<Vec<T>, CapacityOverflow>(CapacityOverflow { dimension: n })
    }
}

/// Element `(i, j)` of the product of `a` and `b`: the terms are taken with
/// `k` ascending and each is added to the sum so far.
pub fn dot<T: Scalar>(a: &[T], b: &[T], n: usize, i: usize, j: usize) -> (sum: T)
    requires
        a@.len() == n * n,
        b@.len() == n * n,
        i < n,
        j < n,
    ensures
        sum == entry(a@, b@, n as int, i as int, j as int),
{
    proof {
        vstd::slice::axiom_spec_len(a);
    }
    let mut sum = T::zero();
    for k in 0..n
        invariant
            n * n <= usize::MAX,
            a@.len() == n * n,
            b@.len() == n * n,
            i < n,
            j < n,
            sum == dot_prefix(a@, b@, n as int, i as int, j as int, k as int),
    {
        let x = a[index_of(n, i, k)];
        let y = b[index_of(n, k, j)];
        sum = sum.plus(x.times(y));
    }
    sum
}

/// Computes the product of the `n`-by-`n` matrices `a` and `b` on the
/// calling thread, row by row, column by column within a row.
pub fn matmul_flat_sequential<T: Scalar>(a: &[T], b: &[T], n: usize) -> (r: Result<
    Vec<T>,
    CapacityOverflow,
>)
    requires
        n * n <= usize::MAX ==> a@.len() == n * n && b@.len() == n * n,
    ensures
        kernel_outcome(a@, b@, n, r),
{
    let len = match matrix_len(n) {
        Ok(len) => len,
        Err(e) => {
            return Err(e);
        },
    };
    let mut result: Vec<T> = vec![T::zero(); len];
    assert(flat_index(n as int, 0, 0) == 0);
    for i in 0..n
        invariant
            n * n <= usize::MAX,
            a@.len() == n * n,
            b@.len() == n * n,
            result@.len() == n * n,
            forall|p: int|
                0 <= p < flat_index(n as int, i as int, 0) ==> result@[p] == entry(
                    a@,
                    b@,
                    n as int,
                    p / (n as int),
                    p % (n as int),
                ),
    {
        for j in 0..n
            invariant
                n * n <= usize::MAX,
                a@.len() == n * n,
                b@.len() == n * n,
                result@.len() == n * n,
                i < n,
                forall|p: int|
                    0 <= p < flat_index(n as int, i as int, j as int) ==> result@[p] == entry(
                        a@,
                        b@,
                        n as int,
                        p / (n as int),
                        p % (n as int),
                    ),
        {
            let sum = dot(a, b, n, i, j);
            let at = index_of(n, i, j);
            result[at] = sum;
            proof {
                lemma_flat_index_inverse(n as int, i as int, j as int);
            }
        }
        proof {
            assert(flat_index(n as int, i as int, n as int) == flat_index(n as int, i + 1, 0))
                by (nonlinear_arith);
        }
    }
    proof {
        assert(flat_index(n as int, n as int, 0) == n * n);
        assert(result@ =~= product(a@, b@, n as int));
    }
    Ok(result)
}

/// Fills `row` with row `i` of the product of `a` and `b`. The task of one
/// worker of the parallel kernel: it reads the operands and writes the row
/// it was handed, nothing else.
pub fn fill_row<T: Scalar>(row: &mut [T], a: &[T], b: &[T], n: usize, i: usize)
    requires
        old(row)@.len() == n,
        a@.len() == n * n,
        b@.len() == n * n,
        i < n,
    ensures
        final(row)@ == product_row(a@, b@, n as int, i as int),
{
    for j in 0..n
        invariant
            row@.len() == n,
            a@.len() == n * n,
            b@.len() == n * n,
            i < n,
            forall|c: int| 0 <= c < j ==> row@[c] == entry(a@, b@, n as int, i as int, c),
    {
        let sum = dot(a, b, n, i, j);
        row[j] = sum;
    }
    assert(row@ =~= product_row(a@, b@, n as int, i as int));
}

/// Runs [`fill_row`] on every row of `result`, on rayon's worker pool:
/// `par_chunks_mut(n)` cuts the buffer into consecutive chunks of `n`
/// elements, `enumerate` numbers them from zero and `for_each` hands each
/// pair to the closure once and returns when all of them are done.
///
/// Trusted: that chunk `i` is exactly row `i` of the buffer, that every
/// chunk is visited, and that nothing but the chunks is written. What a
/// visit leaves in its chunk is the verified contract of [`fill_row`].
/// `par_chunks_mut` panics on a chunk size of zero, hence `n > 0`.
#[verifier::external_body]
fn fill_rows_in_parallel<T: Scalar + Send + Sync>(result: &mut Vec<T>, a: &[T], b: &[T], n: usize)
    requires
        n > 0,
        old(result)@.len() == n * n,
        a@.len() == n * n,
        b@.len() == n * n,
    ensures
        final(result)@.len() == n * n,
        forall|i: int|
            0 <= i < n ==> #[trigger] row_of(final(result)@, n as int, i) == product_row(
                a@,
                b@,
                n as int,
                i,
            ),
{
    result.par_chunks_mut(n).enumerate().for_each(|(i, row)| fill_row(row, a, b, n, i));
}

/// Computes the product of the `n`-by-`n` matrices `a` and `b` with one
/// task per row of the result, spread over the worker pool; returns when
/// every row is done.
pub fn matmul_flat_parallel<T: Scalar + Send + Sync>(a: &[T], b: &[T], n: usize) -> (r: Result<
    Vec<T>,
    CapacityOverflow,
>)
    requires
        n * n <= usize::MAX ==> a@.len() == n * n && b@.len() == n * n,
    ensures
        kernel_outcome(a@, b@, n, r),
{
    let len = match matrix_len(n) {
        Ok(len) => len,
        Err(e) => {
            return Err(e);
        },
    };
    let mut result: Vec<T> = vec![T::zero(); len];
    if n > 0 {
        fill_rows_in_parallel(&mut result, a, b, n);
    }
    proof {
        lemma_rows_make_product(result@, a@, b@, n as int);
    }
    Ok(result)
}

} // verus!
