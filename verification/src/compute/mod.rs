//! The capability interface between the tensor engine and its backends,
//! and the mathematical meaning of every operation a backend offers.

mod cpu;
mod element;
mod layout;
mod metal;

pub use cpu::{CPUBackend, CPUContext};
pub use element::Element;
pub use layout::{lemma_cell_of_place, lemma_part_of_batch, lemma_place_of_cell};
pub use metal::{
    allocatable, batched_launch, dimension_uniforms, elementwise_launch, in_kernel_range,
    launch_refusal, lemma_launches_are_well_formed, matmul_launch, plain_launch, step_after,
    transposed_launch, uses_tiles, Binding, Dispatch, InitStep, Kernel, Launch, LaunchRefusal, MetalBackend, MetalContext,
    Uniform, ELEMENTWISE_GROUP, ELEMENT_BYTES, INIT_STEPS, KERNEL_COUNT, STEPS_BEFORE_PIPELINES,
    TILE_SIZE,
};

use crate::error::FerroFlowError;
use std::sync::Arc;
use vstd::prelude::*;

verus! {

/// A buffer of `len` zero elements.
pub open spec fn zero_filled<T: Element>(len: nat) -> Seq<T> {
    Seq::new(len, |i: int| T::zero_value())
}

/// Element by element, `a[i] + b[i]`.
pub open spec fn pairwise_sum<T: Element>(a: Seq<T>, b: Seq<T>) -> Seq<T> {
    Seq::new(a.len(), |i: int| a[i].sum(b[i]))
}

/// Element by element, `a[i] * b[i]`.
pub open spec fn pairwise_product<T: Element>(a: Seq<T>, b: Seq<T>) -> Seq<T> {
    Seq::new(a.len(), |i: int| a[i].product(b[i]))
}

/// Element by element, `a[i] * scalar`.
pub open spec fn scaled<T: Element>(a: Seq<T>, scalar: T) -> Seq<T> {
    Seq::new(a.len(), |i: int| a[i].product(scalar))
}

/// Where the left operand keeps its logical entry `(row, inner)`.
///
/// Untransposed, the operand is stored row-major as `rows x depth`.
/// Transposed, it is stored row-major as `depth x rows` and read with rows
/// and columns swapped.
pub open spec fn left_index(rows: int, depth: int, transposed: bool, row: int, inner: int) -> int {
    if transposed {
        inner * rows + row
    } else {
        row * depth + inner
    }
}

/// Where the right operand keeps its logical entry `(inner, col)`.
///
/// Untransposed, the operand is stored row-major as `depth x cols`.
/// Transposed, it is stored row-major as `cols x depth`.
pub open spec fn right_index(depth: int, cols: int, transposed: bool, inner: int, col: int) -> int {
    if transposed {
        col * depth + inner
    } else {
        inner * cols + col
    }
}

/// The shape and layout of one matrix product: an effective `rows x depth`
/// left operand times an effective `depth x cols` right operand.
pub struct Product {
    pub rows: int,
    pub cols: int,
    pub depth: int,
    pub transpose_a: bool,
    pub transpose_b: bool,
}

impl Product {
    /// The product of an effective `m x k` operand and an effective `k x n`
    /// operand.
    pub open spec fn of(m: int, n: int, k: int, transpose_a: bool, transpose_b: bool) -> Product {
        Product { rows: m, cols: n, depth: k, transpose_a, transpose_b }
    }
}

/// The sum of the first `upto` terms of entry `(row, col)` of a product,
/// accumulated from zero in the order of the inner index. The operands
/// start at `a_base` and `b_base` in their buffers.
pub open spec fn partial_entry<T: Element>(
    a: Seq<T>,
    b: Seq<T>,
    a_base: int,
    b_base: int,
    p: Product,
    row: int,
    col: int,
    upto: nat,
) -> T
    decreases upto,
{
    if upto == 0 {
        T::zero_value()
    } else {
        let inner = upto - 1;
        partial_entry(a, b, a_base, b_base, p, row, col, inner as nat).sum(
            a[a_base + left_index(p.rows, p.depth, p.transpose_a, row, inner)].product(
                b[b_base + right_index(p.depth, p.cols, p.transpose_b, inner, col)],
            ),
        )
    }
}

/// Entry `(row, col)` of a product.
pub open spec fn product_entry<T: Element>(
    a: Seq<T>,
    b: Seq<T>,
    a_base: int,
    b_base: int,
    p: Product,
    row: int,
    col: int,
) -> T {
    partial_entry(a, b, a_base, b_base, p, row, col, p.depth as nat)
}

/// One matrix product whose operands start at the given offsets, row-major.
pub open spec fn product_block<T: Element>(
    a: Seq<T>,
    b: Seq<T>,
    a_base: int,
    b_base: int,
    p: Product,
) -> Seq<T> {
    Seq::new(
        (p.rows * p.cols) as nat,
        |at: int| product_entry(a, b, a_base, b_base, p, at / p.cols, at % p.cols),
    )
}

/// The row-major `m x n` product of two buffers.
pub open spec fn matmul_result<T: Element>(
    a: Seq<T>,
    b: Seq<T>,
    m: nat,
    n: nat,
    k: nat,
    transpose_a: bool,
    transpose_b: bool,
) -> Seq<T> {
    product_block(a, b, 0, 0, Product::of(m as int, n as int, k as int, transpose_a, transpose_b))
}

/// The products of `batch` independent pairs of matrices, one after the
/// other. Pair number `i` starts at `i * (m * k)` in `a`, at `i * (k * n)` in
/// `b`, and its product at `i * (m * n)` in the result.
pub open spec fn batched_matmul_result<T: Element>(
    a: Seq<T>,
    b: Seq<T>,
    batch: nat,
    m: nat,
    n: nat,
    k: nat,
    transpose_a: bool,
    transpose_b: bool,
) -> Seq<T> {
    let p = Product::of(m as int, n as int, k as int, transpose_a, transpose_b);
    Seq::new(
        batch * (m * n),
        |at: int|
            {
                let pair = at / (m * n) as int;
                let within = at % (m * n) as int;
                product_entry(
                    a,
                    b,
                    pair * (m * k),
                    pair * (k * n),
                    p,
                    within / n as int,
                    within % n as int,
                )
            },
    )
}

/// Whether two buffers of `a_len` and `b_len` elements hold the operands of
/// `batch` products of `m x k` by `k x n`, and the result can be held too.
pub open spec fn matmul_fits(a_len: nat, b_len: nat, batch: usize, m: usize, n: usize, k: usize) -> bool {
    &&& a_len == batch * (m * k)
    &&& b_len == batch * (k * n)
    &&& batch * (m * n) <= usize::MAX
}

/// `count * (x * y)`, unless it does not fit the machine word.
pub fn checked_volume(count: usize, x: usize, y: usize) -> (r: Option<usize>)
    ensures
        match r {
            Some(v) => v == count * (x * y),
            None => count * (x * y) > usize::MAX,
        },
{
    if count == 0 {
        assert(0 * (x * y) == 0);
        return Some(0);
    }
    match x.checked_mul(y) {
        Some(block) => count.checked_mul(block),
        None => {
            assert(count * (x * y) >= x * y) by (nonlinear_arith)
                requires
                    count >= 1,
                    x * y >= 0,
            ;
            None
        },
    }
}

/// Whether buffers of `a_len` and `b_len` elements hold the operands of
/// `batch` products of `m x k` by `k x n`, and the result can be held too.
pub fn operands_fit(a_len: usize, b_len: usize, batch: usize, m: usize, n: usize, k: usize) -> (ok:
    bool)
    ensures
        ok == matmul_fits(a_len as nat, b_len as nat, batch, m, n, k),
{
    let a_need = checked_volume(batch, m, k);
    let b_need = checked_volume(batch, k, n);
    let c_need = checked_volume(batch, m, n);
    match (a_need, b_need, c_need) {
        (Some(a_need), Some(b_need), Some(_)) => a_need == a_len && b_need == b_len,
        _ => false,
    }
}

/// What every execution backend offers to the tensor engine.
///
/// A backend owns its buffers and its context. The engine sees a buffer only
/// through [`ComputeBackend::contents`], the elements it holds. No operation
/// changes a buffer it is handed: every result is a new buffer.
///
/// The contracts speak of a backend through [`ComputeBackend::contents`],
/// [`ComputeBackend::dependable`] and [`ComputeBackend::sums_in_order`]. A
/// backend defines the three so that they are true of it.
pub trait ComputeBackend: Sized + Send + Sync + 'static {
    /// The element type of every buffer.
    type Elem: Element;

    /// The buffer type used by this backend.
    type Buffer: Send + Sync;

    /// The context type used by this backend. It is shared by every tensor
    /// made in it and never changes once it is made.
    type Context: Send + Sync;

    /// The elements a buffer holds, in order: what reading it back gives.
    spec fn contents(buffer: &Self::Buffer) -> Vec<Self::Elem>;

    /// Whether this backend completes every well-formed request. A backend
    /// that drives a device may fail where a host backend cannot.
    spec fn dependable() -> bool;

    /// Whether this backend computes every entry of a matrix product as
    /// [`product_entry`] states it: the terms are added to zero one by one,
    /// in the order of the inner index. A backend that adds in another
    /// order, or fuses the product and the sum, gives entries that may
    /// differ from those in their last digits; of its products only the
    /// size is known.
    spec fn sums_in_order() -> bool;

    /// Creates a new execution context. A backend that cannot be set up
    /// fails with an initialization error, or with the error of its device
    /// where a part of the context fails to be built.
    fn new() -> (r: Result<Arc<Self::Context>, FerroFlowError>)
        ensures
            Self::dependable() ==> r is Ok,
            r matches Err(e) ==> e is InitError || e is MetalError || e is CPUError,
    ;

    /// Allocates a buffer of `size` elements: a copy of `data` where it is
    /// given, zeros otherwise. Data of any other length than `size` is
    /// refused.
    fn allocate_buffer(ctx: &Self::Context, size: usize, data: Option<&[Self::Elem]>) -> (r: Result<
        Self::Buffer,
        FerroFlowError,
    >)
        ensures
            data matches Some(d) && d@.len() != size ==> r is Err && r->Err_0 is BufferError,
            r matches Ok(buffer) ==> Self::contents(&buffer)@ == (match data {
                Some(d) => d@,
                None => zero_filled::<Self::Elem>(size as nat),
            }),
            Self::dependable() && (data matches Some(d) ==> d@.len() == size) ==> r is Ok,
    ;

    /// Reads the whole buffer back.
    fn read_buffer(ctx: &Self::Context, buffer: &Self::Buffer) -> (r: Result<
        Vec<Self::Elem>,
        FerroFlowError,
    >)
        ensures
            r matches Ok(data) ==> data@ == Self::contents(buffer)@,
            Self::dependable() ==> r is Ok,
    ;

    /// Performs element-wise addition of two buffers of `size` elements.
    fn element_wise_add(
        ctx: &Self::Context,
        a: &Self::Buffer,
        b: &Self::Buffer,
        size: usize,
    ) -> (r: Result<Self::Buffer, FerroFlowError>)
        ensures
            Self::contents(a)@.len() != size || Self::contents(b)@.len() != size ==> r is Err
                && r->Err_0 is BufferError,
            r matches Ok(out) ==> Self::contents(&out)@ == pairwise_sum(
                Self::contents(a)@,
                Self::contents(b)@,
            ),
            Self::dependable() && Self::contents(a)@.len() == size && Self::contents(b)@.len()
                == size ==> r is Ok,
    ;

    /// Performs element-wise multiplication of two buffers of `size`
    /// elements.
    fn element_wise_multiply(
        ctx: &Self::Context,
        a: &Self::Buffer,
        b: &Self::Buffer,
        size: usize,
    ) -> (r: Result<Self::Buffer, FerroFlowError>)
        ensures
            Self::contents(a)@.len() != size || Self::contents(b)@.len() != size ==> r is Err
                && r->Err_0 is BufferError,
            r matches Ok(out) ==> Self::contents(&out)@ == pairwise_product(
                Self::contents(a)@,
                Self::contents(b)@,
            ),
            Self::dependable() && Self::contents(a)@.len() == size && Self::contents(b)@.len()
                == size ==> r is Ok,
    ;

    /// Multiplies every element of a buffer of `size` elements by `scalar`.
    fn scalar_multiply(
        ctx: &Self::Context,
        input: &Self::Buffer,
        scalar: Self::Elem,
        size: usize,
    ) -> (r: Result<Self::Buffer, FerroFlowError>)
        ensures
            Self::contents(input)@.len() != size ==> r is Err && r->Err_0 is BufferError,
            r matches Ok(out) ==> Self::contents(&out)@ == scaled(Self::contents(input)@, scalar),
            Self::dependable() && Self::contents(input)@.len() == size ==> r is Ok,
    ;

    /// Waits until everything issued on this context has completed.
    fn synchronize(ctx: &Self::Context) -> (r: Result<(), FerroFlowError>)
        ensures
            Self::dependable() ==> r is Ok,
    ;

    /// Performs matrix multiplication C = A * B with optional transposition.
    ///
    /// `a` is the left matrix, stored as `m x k`, or as `k x m` if
    /// `transpose_a`. `b` is the right matrix, stored as `k x n`, or as
    /// `n x k` if `transpose_b`. The result has `m` rows and `n` columns.
    /// Buffers of any other size are refused.
    fn matmul_transposed(
        ctx: &Self::Context,
        a: &Self::Buffer,
        b: &Self::Buffer,
        m: usize,
        n: usize,
        k: usize,
        transpose_a: bool,
        transpose_b: bool,
    ) -> (r: Result<Self::Buffer, FerroFlowError>)
        ensures
            !matmul_fits(Self::contents(a)@.len(), Self::contents(b)@.len(), 1, m, n, k) ==> r is Err
                && r->Err_0 is BufferError,
            r matches Ok(c) ==> Self::contents(&c)@.len() == m * n && (Self::sums_in_order()
                ==> Self::contents(&c)@ == matmul_result(
                    Self::contents(a)@,
                    Self::contents(b)@,
                    m as nat,
                    n as nat,
                    k as nat,
                    transpose_a,
                    transpose_b,
            )),
            Self::dependable() && matmul_fits(
                Self::contents(a)@.len(),
                Self::contents(b)@.len(),
                1,
                m,
                n,
                k,
            ) ==> r is Ok,
    ;

    /// Performs batched matrix multiplication with optional transposition:
    /// `batch_size` independent products, laid out one after the other.
    fn matmul_transposed_batched(
        ctx: &Self::Context,
        a: &Self::Buffer,
        b: &Self::Buffer,
        batch_size: usize,
        m: usize,
        n: usize,
        k: usize,
        transpose_a: bool,
        transpose_b: bool,
    ) -> (r: Result<Self::Buffer, FerroFlowError>)
        ensures
            !matmul_fits(Self::contents(a)@.len(), Self::contents(b)@.len(), batch_size, m, n, k)
                ==> r is Err && r->Err_0 is BufferError,
            r matches Ok(c) ==> Self::contents(&c)@.len() == batch_size * (m * n) && (Self::sums_in_order()
                ==> Self::contents(&c)@ == batched_matmul_result(
                    Self::contents(a)@,
                    Self::contents(b)@,
                    batch_size as nat,
                    m as nat,
                    n as nat,
                    k as nat,
                    transpose_a,
                    transpose_b,
            )),
            Self::dependable() && matmul_fits(
                Self::contents(a)@.len(),
                Self::contents(b)@.len(),
                batch_size,
                m,
                n,
                k,
            ) ==> r is Ok,
    ;

    /// Matrix multiplication without transposition.
    fn matmul(
        ctx: &Self::Context,
        a: &Self::Buffer,
        b: &Self::Buffer,
        m: usize,
        n: usize,
        k: usize,
    ) -> (r: Result<Self::Buffer, FerroFlowError>)
        ensures
            !matmul_fits(Self::contents(a)@.len(), Self::contents(b)@.len(), 1, m, n, k) ==> r is Err
                && r->Err_0 is BufferError,
            r matches Ok(c) ==> Self::contents(&c)@.len() == m * n && (Self::sums_in_order()
                ==> Self::contents(&c)@ == matmul_result(
                    Self::contents(a)@,
                    Self::contents(b)@,
                    m as nat,
                    n as nat,
                    k as nat,
                    false,
                    false,
            )),
            Self::dependable() && matmul_fits(
                Self::contents(a)@.len(),
                Self::contents(b)@.len(),
                1,
                m,
                n,
                k,
            ) ==> r is Ok,
    {
        Self::matmul_transposed(ctx, a, b, m, n, k, false, false)
    }

    /// Batched matrix multiplication without transposition.
    fn matmul_batched(
        ctx: &Self::Context,
        a: &Self::Buffer,
        b: &Self::Buffer,
        batch_size: usize,
        m: usize,
        n: usize,
        k: usize,
    ) -> (r: Result<Self::Buffer, FerroFlowError>)
        ensures
            !matmul_fits(Self::contents(a)@.len(), Self::contents(b)@.len(), batch_size, m, n, k)
                ==> r is Err && r->Err_0 is BufferError,
            r matches Ok(c) ==> Self::contents(&c)@.len() == batch_size * (m * n) && (Self::sums_in_order()
                ==> Self::contents(&c)@ == batched_matmul_result(
                    Self::contents(a)@,
                    Self::contents(b)@,
                    batch_size as nat,
                    m as nat,
                    n as nat,
                    k as nat,
                    false,
                    false,
            )),
            Self::dependable() && matmul_fits(
                Self::contents(a)@.len(),
                Self::contents(b)@.len(),
                batch_size,
                m,
                n,
                k,
            ) ==> r is Ok,
    {
        Self::matmul_transposed_batched(ctx, a, b, batch_size, m, n, k, false, false)
    }
}

} // verus!
