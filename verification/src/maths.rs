//! The numeric kernel: multiply-add, three-term dot products in the
//! accumulation orders of the scalar and of the vectorised evaluation, and
//! the product of a 3×3 matrix with a column.

use vstd::prelude::*;
use crate::arith::{mul_spec, add_spec};
use crate::binary32::{is_nan, is_zero};

verus! {

/// The order in which a dot product accumulates its three products.
#[derive(Clone, Copy, Debug, PartialEq, Eq, Structural)]
pub enum Kernel {
    /// One product after another, from the first component on.
    Scalar,
    /// In four lanes, summed pairwise, as a horizontal sum does.
    Sse,
    /// In four lanes, summed pairwise, as a dot-product instruction does.
    Sse41,
}

/// `a * b + c` with the product rounded before the sum.
pub open spec fn mul_add_spec(a: u32, b: u32, c: u32) -> u32 {
    add_spec(mul_spec(a, b), c)
}

/// The dot product accumulated from the first component on:
/// `a2*b2 + (a1*b1 + a0*b0)`, each product and each sum rounded.
pub open spec fn dot_sequential(a: [u32; 3], b: [u32; 3]) -> u32 {
    mul_add_spec(a[2], b[2], mul_add_spec(a[1], b[1], mul_spec(a[0], b[0])))
}

/// The dot product of four lanes, the spare lane holding zero, summed
/// pairwise: `(0 + a2*b2) + (a1*b1 + a0*b0)`.
pub open spec fn dot_pairwise(a: [u32; 3], b: [u32; 3]) -> u32 {
    add_spec(
        add_spec(0, mul_spec(a[2], b[2])),
        add_spec(mul_spec(a[1], b[1]), mul_spec(a[0], b[0])),
    )
}

/// The dot product as kernel `k` accumulates it.
pub open spec fn dot_spec(k: Kernel, a: [u32; 3], b: [u32; 3]) -> u32 {
    match k {
        Kernel::Scalar => dot_sequential(a, b),
        Kernel::Sse => dot_pairwise(a, b),
        Kernel::Sse41 => dot_pairwise(a, b),
    }
}

/// The kernels agree: the pairwise order gives what the sequential order
/// gives, but that the one may give a positive zero where the other gives a
/// negative one.
pub proof fn lemma_kernels_agree(k: Kernel, a: [u32; 3], b: [u32; 3])
    ensures
        dot_spec(k, a, b) == dot_sequential(a, b) || (is_zero(dot_spec(k, a, b)) && is_zero(
            dot_sequential(a, b),
        )),
{
    let last = mul_spec(a[2], b[2]);
    let rest = add_spec(mul_spec(a[1], b[1]), mul_spec(a[0], b[0]));
    crate::arith::lemma_nan_is_canonical(a[2], b[2]);
    crate::arith::lemma_nan_is_canonical(mul_spec(a[1], b[1]), mul_spec(a[0], b[0]));
    if !is_nan(last) {
        crate::arith::lemma_add_to_zero(0, last);
        if is_zero(last) && !is_nan(rest) {
            crate::arith::lemma_add_to_zero(last, rest);
            crate::arith::lemma_add_to_zero(add_spec(0, last), rest);
        }
    }
}

/// Whether the four-lane instructions can be used: they were enabled when
/// the program was built, or the processor reports them.
pub fn has_sse(enabled: bool, detected: bool) -> (r: bool)
    ensures
        r == (enabled || detected),
{
    enabled || detected
}

/// Whether the dot-product instruction can be used: it was enabled when the
/// program was built, or the processor reports it.
pub fn has_sse4_1(enabled: bool, detected: bool) -> (r: bool)
    ensures
        r == (enabled || detected),
{
    enabled || detected
}

/// The kernel for a processor with the given capabilities: the
/// dot-product instruction where both are present, the horizontal sum where
/// only the four-lane instructions are, the scalar order otherwise.
pub fn select_kernel(sse: bool, sse4_1: bool) -> (k: Kernel)
    ensures
        k == if !sse {
            Kernel::Scalar
        } else if sse4_1 {
            Kernel::Sse41
        } else {
            Kernel::Sse
        },
{
    if sse {
        if sse4_1 {
            Kernel::Sse41
        } else {
            Kernel::Sse
        }
    } else {
        Kernel::Scalar
    }
}

/// `a * b + c`, rounded twice.
pub fn mul_add(a: u32, b: u32, c: u32) -> (r: u32)
    ensures
        r == mul_add_spec(a, b, c),
{
    crate::arith::add(crate::arith::mul(a, b), c)
}

/// The dot product in scalar order.
pub fn dot_product_fallback(a: &[u32; 3], b: &[u32; 3]) -> (r: u32)
    ensures
        r == dot_sequential(*a, *b),
{
    mul_add(a[2], b[2], mul_add(a[1], b[1], crate::arith::mul(a[0], b[0])))
}

/// The dot product in the order of the four-lane horizontal sum.
pub fn dot_product_sse(a: &[u32; 3], b: &[u32; 3]) -> (r: u32)
    ensures
        r == dot_pairwise(*a, *b),
{
    let first = crate::arith::mul(a[0], b[0]);
    let second = crate::arith::mul(a[1], b[1]);
    let third = crate::arith::mul(a[2], b[2]);
    crate::arith::add(crate::arith::add(0, third), crate::arith::add(second, first))
}

/// The dot product in the order of the dot-product instruction.
pub fn dot_product_sse4_1(a: &[u32; 3], b: &[u32; 3]) -> (r: u32)
    ensures
        r == dot_pairwise(*a, *b),
{
    dot_product_sse(a, b)
}

/// The dot product as kernel `k` accumulates it.
pub fn dot_product(k: Kernel, a: &[u32; 3], b: &[u32; 3]) -> (r: u32)
    ensures
        r == dot_spec(k, *a, *b),
{
    match k {
        Kernel::Scalar => dot_product_fallback(a, b),
        Kernel::Sse => dot_product_sse(a, b),
        Kernel::Sse41 => dot_product_sse4_1(a, b),
    }
}

/// The product of `matrix` and `column`, each component accumulated by
/// kernel `k`.
pub fn matrix_product_with(k: Kernel, matrix: &[[u32; 3]; 3], column: [u32; 3]) -> (r: [u32; 3])
    ensures
        forall|i: int| 0 <= i < 3 ==> r[i] == dot_spec(k, #[trigger] matrix[i], column),
{
    [
        dot_product(k, &matrix[0], &column),
        dot_product(k, &matrix[1], &column),
        dot_product(k, &matrix[2], &column),
    ]
}

/// The product of `matrix` and `column` in scalar order, the order that
/// every other kernel is measured against.
pub fn matrix_product(matrix: &[[u32; 3]; 3], column: [u32; 3]) -> (r: [u32; 3])
    ensures
        forall|i: int| 0 <= i < 3 ==> r[i] == dot_sequential(#[trigger] matrix[i], column),
{
    matrix_product_with(Kernel::Scalar, matrix, column)
}

} // verus!
