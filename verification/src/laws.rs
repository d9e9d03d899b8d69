//! Laws of the product and of the kernels that compute it.
//!
//! Each law is stated of [`kernel_outcome`], the contract that both
//! kernels meet, so it holds of whatever either of them returns.

use vstd::prelude::*;
use crate::kernel::kernel_outcome;
use crate::layout::{
    flat_index,
    lemma_flat_index_bound,
    lemma_flat_index_inverse,
    lemma_position_has_element,
    CapacityOverflow,
};
use crate::product::{dot_prefix, entry, product};
use crate::scalar::Scalar;

verus! {

/// Two kernel results that a caller cannot tell apart: the same error, or
/// matrices that are equal element for element.
pub open spec fn same_outcome<T>(
    first: Result<Vec<T>, CapacityOverflow>,
    second: Result<Vec<T>, CapacityOverflow>,
) -> bool {
    match (first, second) {
        (Ok(x), Ok(y)) => x@ == y@,
        (Err(e), Err(f)) => e == f,
        _ => false,
    }
}

/// The kernel contract leaves no choice: any two results that meet it for
/// the same operands are the same. Hence the sequential and the parallel
/// kernel agree element for element, and a kernel run twice on unchanged
/// operands returns the same matrix twice.
pub proof fn lemma_kernel_outcome_unique<T: Scalar>(
    a: Seq<T>,
    b: Seq<T>,
    n: usize,
    first: Result<Vec<T>, CapacityOverflow>,
    second: Result<Vec<T>, CapacityOverflow>,
)
    requires
        kernel_outcome(a, b, n, first),
        kernel_outcome(a, b, n, second),
    ensures
        same_outcome(first, second),
{
}

/// For dimension zero a kernel returns the empty matrix, without error.
pub proof fn lemma_empty_outcome<T: Scalar>(
    a: Seq<T>,
    b: Seq<T>,
    r: Result<Vec<T>, CapacityOverflow>,
)
    requires
        kernel_outcome(a, b, 0, r),
    ensures
        r matches Ok(c) && c@ == Seq::<T>::empty(),
{
    assert(product(a, b, 0) =~= Seq::<T>::empty());
}

/// Whether adding zero, on either side, changes nothing.
pub open spec fn zero_is_neutral<T: Scalar>() -> bool {
    &&& forall|x: T| #[trigger] T::zero_spec().plus_spec(x) == x
    &&& forall|x: T| #[trigger] x.plus_spec(T::zero_spec()) == x
}

/// Whether zero is neutral for the sum and absorbing for the product, and
/// `one` is neutral for the product on the right.
pub open spec fn unital<T: Scalar>(one: T) -> bool {
    &&& zero_is_neutral::<T>()
    &&& forall|x: T| #[trigger] x.times_spec(T::zero_spec()) == T::zero_spec()
    &&& forall|x: T| #[trigger] x.times_spec(one) == x
}

/// Wrapping unsigned arithmetic is unital with the number one.
pub proof fn lemma_u64_unital()
    ensures
        unital::<u64>(1),
{
}

/// Wrapping signed arithmetic is unital with the number one.
pub proof fn lemma_i64_unital()
    ensures
        unital::<i64>(1),
{
}

/// For dimension one a kernel returns the single element
/// `zero + a[0] * b[0]`, which is `a[0] * b[0]` where zero is neutral.
pub proof fn lemma_singleton_outcome<T: Scalar>(
    a: Seq<T>,
    b: Seq<T>,
    r: Result<Vec<T>, CapacityOverflow>,
)
    requires
        a.len() == 1,
        b.len() == 1,
        kernel_outcome(a, b, 1, r),
    ensures
        r matches Ok(c) && c@ == seq![T::zero_spec().plus_spec(a[0].times_spec(b[0]))],
        zero_is_neutral::<T>() ==> (r matches Ok(c) && c@ == seq![a[0].times_spec(b[0])]),
{
    reveal_with_fuel(dot_prefix, 2);
    assert(entry(a, b, 1, 0, 0) == T::zero_spec().plus_spec(a[0].times_spec(b[0])));
    assert(product(a, b, 1) =~= seq![T::zero_spec().plus_spec(a[0].times_spec(b[0]))]);
}

/// The `n`-by-`n` matrix with `one` on the diagonal and zero elsewhere.
pub open spec fn identity<T: Scalar>(n: int, one: T) -> Seq<T> {
    Seq::new(
        (n * n) as nat,
        |p: int|
            if p / n == p % n {
                one
            } else {
                T::zero_spec()
            },
    )
}

/// Against the identity, a dot product is zero until it has passed the
/// diagonal term and the element of `a` in that column from then on.
proof fn lemma_dot_prefix_identity<T: Scalar>(a: Seq<T>, n: int, one: T, i: int, j: int, k: int)
    requires
        unital(one),
        a.len() == n * n,
        0 <= i < n,
        0 <= j < n,
        0 <= k <= n,
    ensures
        dot_prefix(a, identity(n, one), n, i, j, k) == if k <= j {
            T::zero_spec()
        } else {
            a[flat_index(n, i, j)]
        },
    decreases k,
{
    if k > 0 {
        lemma_dot_prefix_identity(a, n, one, i, j, k - 1);
        let at = flat_index(n, k - 1, j);
        lemma_flat_index_bound(n, k - 1, j);
        lemma_flat_index_inverse(n, k - 1, j);
        assert(identity(n, one)[at] == if k - 1 == j {
            one
        } else {
            T::zero_spec()
        });
    }
}

/// Multiplying by the identity on the right gives the matrix itself, for
/// every element type in which zero and `one` behave as such.
pub proof fn lemma_identity_product<T: Scalar>(a: Seq<T>, n: int, one: T)
    requires
        unital(one),
        0 <= n,
        a.len() == n * n,
    ensures
        product(a, identity(n, one), n) == a,
{
    assert forall|p: int| 0 <= p < n * n implies entry(a, identity(n, one), n, p / n, p % n)
        == a[p] by {
        lemma_position_has_element(n, p);
        lemma_dot_prefix_identity(a, n, one, p / n, p % n, n);
    }
    assert(product(a, identity(n, one), n) =~= a);
}

/// With the identity as the right operand a kernel returns the left
/// operand.
pub proof fn lemma_identity_outcome<T: Scalar>(
    a: Seq<T>,
    n: usize,
    one: T,
    r: Result<Vec<T>, CapacityOverflow>,
)
    requires
        unital(one),
        a.len() == n * n,
        n * n <= usize::MAX,
        kernel_outcome(a, identity(n as int, one), n, r),
    ensures
        r matches Ok(c) && c@ == a,
{
    lemma_identity_product(a, n as int, one);
}

} // verus!
