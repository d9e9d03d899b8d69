//! What the product of two flat matrices is.

use vstd::prelude::*;
use crate::layout::{
    flat_index,
    lemma_flat_index_bound,
    lemma_flat_index_inverse,
    lemma_position_has_element,
    row_of,
};
use crate::scalar::Scalar;

verus! {

/// The sum of the first `k` terms of the dot product of row `i` of `a` and
/// column `j` of `b`: it starts from zero and takes the terms in ascending
/// order, each added on the right of the sum so far.
pub open spec fn dot_prefix<T: Scalar>(a: Seq<T>, b: Seq<T>, n: int, i: int, j: int, k: int) -> T
    decreases k,
{
    if k <= 0 {
        T::zero_spec()
    } else {
        dot_prefix(a, b, n, i, j, k - 1).plus_spec(
            a[flat_index(n, i, k - 1)].times_spec(b[flat_index(n, k - 1, j)]),
        )
    }
}

/// Element `(i, j)` of the product: all `n` terms of the dot product.
pub open spec fn entry<T: Scalar>(a: Seq<T>, b: Seq<T>, n: int, i: int, j: int) -> T {
    dot_prefix(a, b, n, i, j, n)
}

/// Row `i` of the product, as a sequence of `n` elements.
pub open spec fn product_row<T: Scalar>(a: Seq<T>, b: Seq<T>, n: int, i: int) -> Seq<T> {
    Seq::new(n as nat, |j: int| entry(a, b, n, i, j))
}

/// The product of the `n`-by-`n` matrices `a` and `b`, flat and row-major.
pub open spec fn product<T: Scalar>(a: Seq<T>, b: Seq<T>, n: int) -> Seq<T> {
    Seq::new((n * n) as nat, |idx: int| entry(a, b, n, idx / n, idx % n))
}

/// The product holds `n * n` elements, and the one at the position of
/// `(i, j)` is the dot product of row `i` of `a` and column `j` of `b`.
pub proof fn lemma_product_entry<T: Scalar>(a: Seq<T>, b: Seq<T>, n: int, i: int, j: int)
    requires
        0 <= i < n,
        0 <= j < n,
    ensures
        product(a, b, n).len() == n * n,
        product(a, b, n)[flat_index(n, i, j)] == entry(a, b, n, i, j),
        product_row(a, b, n, i)[j] == entry(a, b, n, i, j),
{
    lemma_flat_index_bound(n, i, j);
    lemma_flat_index_inverse(n, i, j);
}

/// A matrix whose every row is the matching row of the product is the
/// product.
pub proof fn lemma_rows_make_product<T: Scalar>(m: Seq<T>, a: Seq<T>, b: Seq<T>, n: int)
    requires
        0 <= n,
        m.len() == n * n,
        forall|i: int| 0 <= i < n ==> #[trigger] row_of(m, n, i) == product_row(a, b, n, i),
    ensures
        m == product(a, b, n),
{
    assert forall|p: int| 0 <= p < n * n implies m[p] == entry(a, b, n, p / n, p % n) by {
        lemma_position_has_element(n, p);
        let i = p / n;
        let j = p % n;
        lemma_flat_index_bound(n, i, j);
        assert(row_of(m, n, i) == product_row(a, b, n, i));
        assert(row_of(m, n, i)[j] == m[flat_index(n, i, 0) + j]);
    }
    assert(m =~= product(a, b, n));
}

} // verus!
