use super::layout::{lemma_part_of_batch, lemma_place_of_cell};
use super::{
    batched_matmul_result, left_index, matmul_result, operands_fit,
    pairwise_product, pairwise_sum, partial_entry, product_block, product_entry, right_index,
    scaled, zero_filled, ComputeBackend, Element, Product,
};
use crate::error::FerroFlowError;
use core::marker::PhantomData;
use std::sync::Arc;
use vstd::arithmetic::div_mod::lemma_fundamental_div_mod_converse;
use vstd::prelude::*;
use vstd::string::StringExecFns;

verus! {

/// The context of the host backend. It holds no state.
#[derive(Debug)]
pub struct CPUContext;

impl CPUContext {
    /// Creates the context of the host backend.
    pub fn new() -> (ctx: Self) {
        CPUContext
    }
}

/// The reference backend: buffers are vectors in host memory, and every
/// operation is a plain loop that runs to completion on the calling thread.
pub struct CPUBackend<T> {
    element: PhantomData<T>,
}

/// A copy of a slice.
fn copy_of<T: Copy>(source: &[T]) -> (out: Vec<T>)
    ensures
        out@ == source@,
{
    let mut out: Vec<T> = Vec::new();
    let mut i: usize = 0;
    while i < source.len()
        invariant
            i <= source@.len(),
            out@ == source@.subrange(0, i as int),
        decreases source@.len() - i,
    {
        out.push(source[i]);
        assert(out@ =~= source@.subrange(0, i + 1));
        i += 1;
    }
    assert(source@.subrange(0, source@.len() as int) =~= source@);
    out
}

/// Entry `(row, col)` of one product: the terms are added to zero one by
/// one, in the order of the inner index.
fn entry<T: Element>(
    a: &Vec<T>,
    b: &Vec<T>,
    a_base: usize,
    b_base: usize,
    m: usize,
    n: usize,
    k: usize,
    transpose_a: bool,
    transpose_b: bool,
    row: usize,
    col: usize,
) -> (r: T)
    requires
        row < m,
        col < n,
        a_base + m * k <= a@.len() <= usize::MAX,
        b_base + k * n <= b@.len() <= usize::MAX,
    ensures
        r == product_entry(
            a@,
            b@,
            a_base as int,
            b_base as int,
            Product::of(m as int, n as int, k as int, transpose_a, transpose_b),
            row as int,
            col as int,
        ),
{
    let ghost p = Product::of(m as int, n as int, k as int, transpose_a, transpose_b);
    let mut sum = T::zero();
    let mut inner: usize = 0;
    while inner < k
        invariant
            inner <= k,
            row < m,
            col < n,
            a_base + m * k <= a@.len() <= usize::MAX,
            b_base + k * n <= b@.len() <= usize::MAX,
            p == Product::of(m as int, n as int, k as int, transpose_a, transpose_b),
            sum == partial_entry(
                a@,
                b@,
                a_base as int,
                b_base as int,
                p,
                row as int,
                col as int,
                inner as nat,
            ),
        decreases k - inner,
    {
        proof {
            lemma_place_of_cell(row as int, inner as int, m as int, k as int);
            lemma_place_of_cell(inner as int, row as int, k as int, m as int);
            lemma_place_of_cell(inner as int, col as int, k as int, n as int);
            lemma_place_of_cell(col as int, inner as int, n as int, k as int);
        }
        let left = if transpose_a {
            a_base + (inner * m + row)
        } else {
            a_base + (row * k + inner)
        };
        let right = if transpose_b {
            b_base + (col * k + inner)
        } else {
            b_base + (inner * n + col)
        };
        assert(left == a_base + left_index(p.rows, p.depth, p.transpose_a, row as int, inner as int));
        assert(right == b_base + right_index(
            p.depth,
            p.cols,
            p.transpose_b,
            inner as int,
            col as int,
        ));
        sum = sum.plus(a[left].times(b[right]));
        inner += 1;
    }
    sum
}

/// Appends one product to `out`, row by row.
fn append_block<T: Element>(
    out: &mut Vec<T>,
    a: &Vec<T>,
    b: &Vec<T>,
    a_base: usize,
    b_base: usize,
    m: usize,
    n: usize,
    k: usize,
    transpose_a: bool,
    transpose_b: bool,
)
    requires
        a_base + m * k <= a@.len() <= usize::MAX,
        b_base + k * n <= b@.len() <= usize::MAX,
    ensures
        final(out)@ == old(out)@ + product_block(
            a@,
            b@,
            a_base as int,
            b_base as int,
            Product::of(m as int, n as int, k as int, transpose_a, transpose_b),
        ),
{
    let ghost p = Product::of(m as int, n as int, k as int, transpose_a, transpose_b);
    let ghost before = out@;
    let mut row: usize = 0;
    while row < m
        invariant
            row <= m,
            a_base + m * k <= a@.len() <= usize::MAX,
            b_base + k * n <= b@.len() <= usize::MAX,
            p == Product::of(m as int, n as int, k as int, transpose_a, transpose_b),
            out@.len() == before.len() + row * n,
            forall|i: int| 0 <= i < before.len() ==> out@[i] == before[i],
            forall|at: int|
                0 <= at < row * n ==> #[trigger] out@[before.len() + at] == product_entry(
                    a@,
                    b@,
                    a_base as int,
                    b_base as int,
                    p,
                    at / n as int,
                    at % n as int,
                ),
        decreases m - row,
    {
        let mut col: usize = 0;
        while col < n
            invariant
                row < m,
                col <= n,
                a_base + m * k <= a@.len() <= usize::MAX,
                b_base + k * n <= b@.len() <= usize::MAX,
                p == Product::of(m as int, n as int, k as int, transpose_a, transpose_b),
                out@.len() == before.len() + row * n + col,
                forall|i: int| 0 <= i < before.len() ==> out@[i] == before[i],
                forall|at: int|
                    0 <= at < row * n + col ==> #[trigger] out@[before.len() + at]
                        == product_entry(
                        a@,
                        b@,
                        a_base as int,
                        b_base as int,
                        p,
                        at / n as int,
                        at % n as int,
                    ),
            decreases n - col,
        {
            let value = entry(a, b, a_base, b_base, m, n, k, transpose_a, transpose_b, row, col);
            proof {
                lemma_place_of_cell(row as int, col as int, m as int, n as int);
            }
            out.push(value);
            col += 1;
        }
        assert(row * n + n == (row + 1) * n) by (nonlinear_arith);
        row += 1;
    }
    proof {
        let whole = before + product_block(a@, b@, a_base as int, b_base as int, p);
        assert(out@.len() == whole.len());
        assert forall|i: int| 0 <= i < whole.len() implies out@[i] == whole[i] by {
            if i >= before.len() {
                let at = i - before.len();
                assert(out@[before.len() + at] == whole[i]);
            }
        }
        assert(out@ =~= whole);
    }
}

impl<T: Element> ComputeBackend for CPUBackend<T> {
    type Elem = T;

    type Buffer = Vec<T>;

    type Context = CPUContext;

    open spec fn contents(buffer: &Vec<T>) -> Vec<T> {
        *buffer
    }

    /// The host backend completes every well-formed request.
    open spec fn dependable() -> bool {
        true
    }

    /// The host backend is the reference: its products are summed in
    /// order.
    open spec fn sums_in_order() -> bool {
        true
    }

    fn new() -> (r: Result<Arc<CPUContext>, FerroFlowError>) {
        Ok(Arc::new(CPUContext::new()))
    }

    fn allocate_buffer(_ctx: &CPUContext, size: usize, data: Option<&[T]>) -> (r: Result<
        Vec<T>,
        FerroFlowError,
    >) {
        match data {
            Some(data) => {
                if data.len() != size {
                    return Err(
                        FerroFlowError::BufferError(String::from_str("Data size mismatch")),
                    );
                }
                Ok(copy_of(data))
            },
            None => {
                let mut out: Vec<T> = Vec::new();
                let mut i: usize = 0;
                while i < size
                    invariant
                        i <= size,
                        out@ == zero_filled::<T>(i as nat),
                    decreases size - i,
                {
                    out.push(T::zero());
                    assert(out@ =~= zero_filled::<T>((i + 1) as nat));
                    i += 1;
                }
                Ok(out)
            },
        }
    }

    fn read_buffer(_ctx: &CPUContext, buffer: &Vec<T>) -> (r: Result<Vec<T>, FerroFlowError>) {
        Ok(copy_of(buffer.as_slice()))
    }

    fn element_wise_add(_ctx: &CPUContext, a: &Vec<T>, b: &Vec<T>, size: usize) -> (r: Result<
        Vec<T>,
        FerroFlowError,
    >) {
        if a.len() != size || b.len() != size {
            return Err(FerroFlowError::BufferError(String::from_str("Buffer size mismatch")));
        }
        let mut out: Vec<T> = Vec::new();
        let mut i: usize = 0;
        while i < size
            invariant
                i <= size,
                a@.len() == size,
                b@.len() == size,
                out@.len() == i,
                forall|j: int| 0 <= j < i ==> out@[j] == a@[j].sum(b@[j]),
            decreases size - i,
        {
            out.push(a[i].plus(b[i]));
            i += 1;
        }
        assert(out@ =~= pairwise_sum(a@, b@));
        Ok(out)
    }

    fn element_wise_multiply(_ctx: &CPUContext, a: &Vec<T>, b: &Vec<T>, size: usize) -> (r:
        Result<Vec<T>, FerroFlowError>) {
        if a.len() != size || b.len() != size {
            return Err(FerroFlowError::BufferError(String::from_str("Buffer size mismatch")));
        }
        let mut out: Vec<T> = Vec::new();
        let mut i: usize = 0;
        while i < size
            invariant
                i <= size,
                a@.len() == size,
                b@.len() == size,
                out@.len() == i,
                forall|j: int| 0 <= j < i ==> out@[j] == a@[j].product(b@[j]),
            decreases size - i,
        {
            out.push(a[i].times(b[i]));
            i += 1;
        }
        assert(out@ =~= pairwise_product(a@, b@));
        Ok(out)
    }

    fn scalar_multiply(_ctx: &CPUContext, input: &Vec<T>, scalar: T, size: usize) -> (r: Result<
        Vec<T>,
        FerroFlowError,
    >) {
        if input.len() != size {
            return Err(FerroFlowError::BufferError(String::from_str("Buffer size mismatch")));
        }
        let mut out: Vec<T> = Vec::new();
        let mut i: usize = 0;
        while i < size
            invariant
                i <= size,
                input@.len() == size,
                out@.len() == i,
                forall|j: int| 0 <= j < i ==> out@[j] == input@[j].product(scalar),
            decreases size - i,
        {
            out.push(input[i].times(scalar));
            i += 1;
        }
        assert(out@ =~= scaled(input@, scalar));
        Ok(out)
    }

    /// Every operation has completed when it returns: there is nothing to
    /// wait for.
    fn synchronize(_ctx: &CPUContext) -> (r: Result<(), FerroFlowError>) {
        Ok(())
    }

    /// The naive triple loop. A transposed operand is read through its
    /// index formula; no transposed copy is made.
    fn matmul_transposed(
        _ctx: &CPUContext,
        a: &Vec<T>,
        b: &Vec<T>,
        m: usize,
        n: usize,
        k: usize,
        transpose_a: bool,
        transpose_b: bool,
    ) -> (r: Result<Vec<T>, FerroFlowError>) {
        if !operands_fit(a.len(), b.len(), 1, m, n, k) {
            return Err(FerroFlowError::BufferError(String::from_str("Buffer size mismatch")));
        }
        let mut out: Vec<T> = Vec::new();
        append_block(&mut out, a, b, 0, 0, m, n, k, transpose_a, transpose_b);
        assert(out@ =~= matmul_result(
            a@,
            b@,
            m as nat,
            n as nat,
            k as nat,
            transpose_a,
            transpose_b,
        ));
        Ok(out)
    }

    /// The same loop once per pair of the batch, at the offsets
    /// `pair * (m * k)`, `pair * (k * n)` and `pair * (m * n)`.
    fn matmul_transposed_batched(
        _ctx: &CPUContext,
        a: &Vec<T>,
        b: &Vec<T>,
        batch_size: usize,
        m: usize,
        n: usize,
        k: usize,
        transpose_a: bool,
        transpose_b: bool,
    ) -> (r: Result<Vec<T>, FerroFlowError>) {
        if !operands_fit(a.len(), b.len(), batch_size, m, n, k) {
            return Err(FerroFlowError::BufferError(String::from_str("Buffer size mismatch")));
        }
        let ghost p = Product::of(m as int, n as int, k as int, transpose_a, transpose_b);
        let mut out: Vec<T> = Vec::new();
        if batch_size == 0 {
            assert(out@ =~= batched_matmul_result(
                a@,
                b@,
                0,
                m as nat,
                n as nat,
                k as nat,
                transpose_a,
                transpose_b,
            ));
            return Ok(out);
        }
        proof {
            lemma_part_of_batch(0, batch_size as int, m * k);
            lemma_part_of_batch(0, batch_size as int, k * n);
            lemma_part_of_batch(0, batch_size as int, m * n);
        }
        let a_block = m * k;
        let b_block = k * n;
        let ghost c_block = m * n;
        let mut pair: usize = 0;
        while pair < batch_size
            invariant
                pair <= batch_size,
                a_block == m * k,
                b_block == k * n,
                c_block == m * n,
                a@.len() == batch_size * (m * k) <= usize::MAX,
                b@.len() == batch_size * (k * n) <= usize::MAX,
                p == Product::of(m as int, n as int, k as int, transpose_a, transpose_b),
                out@ == batched_matmul_result(
                    a@,
                    b@,
                    pair as nat,
                    m as nat,
                    n as nat,
                    k as nat,
                    transpose_a,
                    transpose_b,
                ),
            decreases batch_size - pair,
        {
            proof {
                lemma_part_of_batch(pair as int, batch_size as int, a_block as int);
                lemma_part_of_batch(pair as int, batch_size as int, b_block as int);
                lemma_part_of_batch(pair as int, batch_size as int, c_block);
            }
            let ghost before = out@;
            let a_base = pair * a_block;
            let b_base = pair * b_block;
            append_block(&mut out, a, b, a_base, b_base, m, n, k, transpose_a, transpose_b);
            proof {
                let next = batched_matmul_result(
                    a@,
                    b@,
                    (pair + 1) as nat,
                    m as nat,
                    n as nat,
                    k as nat,
                    transpose_a,
                    transpose_b,
                );
                assert(out@.len() == next.len());
                assert forall|at: int| 0 <= at < next.len() implies out@[at] == next[at] by {
                    if at >= pair * c_block {
                        lemma_fundamental_div_mod_converse(
                            at,
                            c_block,
                            pair as int,
                            at - pair * c_block,
                        );
                    }
                }
                assert(out@ =~= next);
            }
            pair += 1;
        }
        Ok(out)
    }

    fn matmul(_ctx: &CPUContext, a: &Vec<T>, b: &Vec<T>, m: usize, n: usize, k: usize) -> (r:
        Result<Vec<T>, FerroFlowError>) {
        Self::matmul_transposed(_ctx, a, b, m, n, k, false, false)
    }

    fn matmul_batched(
        _ctx: &CPUContext,
        a: &Vec<T>,
        b: &Vec<T>,
        batch_size: usize,
        m: usize,
        n: usize,
        k: usize,
    ) -> (r: Result<Vec<T>, FerroFlowError>) {
        Self::matmul_transposed_batched(_ctx, a, b, batch_size, m, n, k, false, false)
    }
}

} // verus!
