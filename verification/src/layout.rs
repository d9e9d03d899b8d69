//! Row-major layout of an `n`-by-`n` matrix in one flat buffer.

use vstd::prelude::*;
use vstd::arithmetic::div_mod::{
    lemma_fundamental_div_mod,
    lemma_fundamental_div_mod_converse_div,
    lemma_fundamental_div_mod_converse_mod,
    lemma_multiply_divide_lt,
};

verus! {

/// The dimension whose square does not fit in `usize`: no buffer can hold
/// such a matrix.
#[derive(Debug, Clone, Copy, PartialEq, Eq, Structural)]
pub struct CapacityOverflow {
    pub dimension: usize,
}

/// Position of element `(i, j)` in the flat buffer of an `n`-by-`n` matrix.
pub open spec fn flat_index(n: int, i: int, j: int) -> int {
    i * n + j
}

/// Whether position `idx` of the flat buffer belongs to row `i`: the row
/// occupies the `n` positions from `i * n` on.
pub open spec fn in_row(n: int, i: int, idx: int) -> bool {
    flat_index(n, i, 0) <= idx < flat_index(n, i, 0) + n
}

/// Row `i` of the flat `n`-by-`n` matrix `m`.
pub open spec fn row_of<T>(m: Seq<T>, n: int, i: int) -> Seq<T> {
    m.subrange(flat_index(n, i, 0), flat_index(n, i, 0) + n)
}

/// Every element of the matrix has a position inside the buffer.
pub proof fn lemma_flat_index_bound(n: int, i: int, j: int)
    requires
        0 <= i < n,
        0 <= j < n,
    ensures
        0 <= flat_index(n, i, j) < n * n,
        in_row(n, i, flat_index(n, i, j)),
        0 <= flat_index(n, i, 0) && flat_index(n, i, 0) + n <= n * n,
{
    assert(0 <= i * n && i * n + n <= n * n) by (nonlinear_arith)
        requires
            0 <= i < n,
    ;
}

/// Row and column are recovered from the position by division with
/// remainder, so distinct elements have distinct positions.
pub proof fn lemma_flat_index_inverse(n: int, i: int, j: int)
    requires
        0 <= j < n,
    ensures
        flat_index(n, i, j) / n == i,
        flat_index(n, i, j) % n == j,
{
    lemma_fundamental_div_mod_converse_div(flat_index(n, i, j), n, i, j);
    lemma_fundamental_div_mod_converse_mod(flat_index(n, i, j), n, i, j);
}

/// Every position of the buffer is the position of exactly one element:
/// that in row `idx / n` and column `idx % n`.
pub proof fn lemma_position_has_element(n: int, idx: int)
    requires
        0 <= n,
        0 <= idx < n * n,
    ensures
        0 <= idx / n < n,
        0 <= idx % n < n,
        flat_index(n, idx / n, idx % n) == idx,
{
    assert(n > 0) by (nonlinear_arith)
        requires
            0 <= n,
            0 <= idx < n * n,
    ;
    lemma_fundamental_div_mod(idx, n);
    lemma_multiply_divide_lt(idx, n, n);
    assert(n * (idx / n) == (idx / n) * n) by (nonlinear_arith);
    assert(0 <= idx / n) by (nonlinear_arith)
        requires
            0 <= idx,
            n > 0,
            idx == n * (idx / n) + idx % n,
            0 <= idx % n < n,
    ;
}

/// The rows tile the buffer: every position lies in the row `idx / n` and
/// in no other, so the rows cover the whole buffer, leave no gap and do
/// not overlap.
pub proof fn lemma_rows_tile_buffer(n: int, idx: int)
    requires
        0 <= n,
        0 <= idx < n * n,
    ensures
        0 <= idx / n < n,
        in_row(n, idx / n, idx),
        forall|i: int| in_row(n, i, idx) ==> i == idx / n,
{
    lemma_position_has_element(n, idx);
    assert forall|i: int| in_row(n, i, idx) implies i == idx / n by {
        lemma_fundamental_div_mod_converse_div(idx, n, i, idx - i * n);
    }
}

/// Consecutive rows are adjacent, the first starts the buffer and the last
/// ends it.
pub proof fn lemma_rows_are_contiguous(n: int, i: int)
    requires
        0 <= i < n,
    ensures
        flat_index(n, 0, 0) == 0,
        flat_index(n, i, 0) + n == flat_index(n, i + 1, 0),
        flat_index(n, n, 0) == n * n,
{
    assert(i * n + n == (i + 1) * n) by (nonlinear_arith);
}

/// Number of elements of an `n`-by-`n` matrix, or the capacity error when
/// `n * n` exceeds what a buffer can address.
pub fn matrix_len(n: usize) -> (r: Result<usize, CapacityOverflow>)
    ensures
        n * n <= usize::MAX ==> r == Ok::<usize, CapacityOverflow>((n * n) as usize),
        n * n > usize::MAX ==> r == Err::<usize, CapacityOverflow>(
            CapacityOverflow { dimension: n },
        ),
{
    match n.checked_mul(n) {
        Some(len) => Ok(len),
        None => Err(CapacityOverflow { dimension: n }),
    }
}

/// Position of element `(i, j)` of an `n`-by-`n` matrix in its buffer.
pub fn index_of(n: usize, i: usize, j: usize) -> (idx: usize)
    requires
        i < n,
        j < n,
        n * n <= usize::MAX,
    ensures
        idx == flat_index(n as int, i as int, j as int),
        idx < n * n,
{
    proof {
        lemma_flat_index_bound(n as int, i as int, j as int);
    }
    i * n + j
}

} // verus!
