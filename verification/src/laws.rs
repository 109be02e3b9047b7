//! What holds of the engine whatever the tensors are.
//!
//! Each law speaks of the results of operations: `call_ensures(f, args, r)`
//! says that `r` is a result that the call `f(args)` can have.

use crate::compute::{
    batched_matmul_result, lemma_cell_of_place, lemma_part_of_batch, lemma_place_of_cell,
    matmul_result, pairwise_product, pairwise_sum, partial_entry, scaled, CPUBackend,
    ComputeBackend, Element, Product,
};
use crate::error::FerroFlowError;
use crate::tensor::{operand_dims, route, MatmulRoute, Refusal, Shape, Tensor};
use std::sync::Arc;
use vstd::arithmetic::div_mod::lemma_fundamental_div_mod_converse;
use vstd::prelude::*;

verus! {

/// Reading a tensor back gives the data it was made from, on every backend.
pub proof fn lemma_construct_then_read<B: ComputeBackend>(
    ctx: Arc<B::Context>,
    shape: Shape,
    data: &[B::Elem],
    made: Tensor<B>,
    read: Vec<B::Elem>,
)
    requires
        call_ensures(Tensor::<B>::new, (ctx, shape, data), Ok::<Tensor<B>, FerroFlowError>(made)),
        call_ensures(Tensor::<B>::data, (&made,), Ok::<Vec<B::Elem>, FerroFlowError>(read)),
    ensures
        read@ == data@,
        made.spec_shape() == shape@,
{
}

/// On a backend that completes every request, construction fails exactly
/// when the length of the data is not the size of the shape, and then with
/// a shape mismatch. On any backend, data of the wrong length is refused
/// that way.
pub proof fn lemma_construct_fails_on_length_only<B: ComputeBackend>(
    ctx: Arc<B::Context>,
    shape: Shape,
    data: &[B::Elem],
    outcome: Result<Tensor<B>, FerroFlowError>,
)
    requires
        call_ensures(Tensor::<B>::new, (ctx, shape, data), outcome),
    ensures
        data@.len() != shape.spec_size() ==> outcome is Err && outcome->Err_0 is ShapeMismatch,
        B::dependable() ==> (outcome is Err <==> data@.len() != shape.spec_size()),
{
}

/// The sum of two tensors of one shape reads back as the element-wise sum
/// of what the two read back as.
pub proof fn lemma_add_is_elementwise<B: ComputeBackend>(
    a: Tensor<B>,
    b: Tensor<B>,
    sum: Tensor<B>,
    a_data: Vec<B::Elem>,
    b_data: Vec<B::Elem>,
    sum_data: Vec<B::Elem>,
)
    requires
        a.spec_shape() == b.spec_shape(),
        call_ensures(Tensor::<B>::add, (&a, &b), Ok::<Tensor<B>, FerroFlowError>(sum)),
        call_ensures(Tensor::<B>::data, (&a,), Ok::<Vec<B::Elem>, FerroFlowError>(a_data)),
        call_ensures(Tensor::<B>::data, (&b,), Ok::<Vec<B::Elem>, FerroFlowError>(b_data)),
        call_ensures(Tensor::<B>::data, (&sum,), Ok::<Vec<B::Elem>, FerroFlowError>(sum_data)),
    ensures
        sum_data@ == pairwise_sum(a_data@, b_data@),
        sum_data@.len() == a_data@.len(),
        forall|i: int| 0 <= i < a_data@.len() ==> sum_data@[i] == a_data@[i].sum(b_data@[i]),
        sum.spec_shape() == a.spec_shape(),
{
}

/// The element-wise product of two tensors of one shape reads back as the
/// element-wise product of what the two read back as.
pub proof fn lemma_multiply_is_elementwise<B: ComputeBackend>(
    a: Tensor<B>,
    b: Tensor<B>,
    product: Tensor<B>,
    a_data: Vec<B::Elem>,
    b_data: Vec<B::Elem>,
    product_data: Vec<B::Elem>,
)
    requires
        a.spec_shape() == b.spec_shape(),
        call_ensures(Tensor::<B>::multiply, (&a, &b), Ok::<Tensor<B>, FerroFlowError>(product)),
        call_ensures(Tensor::<B>::data, (&a,), Ok::<Vec<B::Elem>, FerroFlowError>(a_data)),
        call_ensures(Tensor::<B>::data, (&b,), Ok::<Vec<B::Elem>, FerroFlowError>(b_data)),
        call_ensures(
            Tensor::<B>::data,
            (&product,),
            Ok::<Vec<B::Elem>, FerroFlowError>(product_data),
        ),
    ensures
        product_data@ == pairwise_product(a_data@, b_data@),
        product_data@.len() == a_data@.len(),
        forall|i: int|
            0 <= i < a_data@.len() ==> product_data@[i] == a_data@[i].product(b_data@[i]),
        product.spec_shape() == a.spec_shape(),
{
}

/// On a backend that completes every request, data of the right length
/// always makes a tensor, and every read of that tensor succeeds and gives
/// the data back: two reads give the same.
pub proof fn lemma_round_trip_on_dependable_backend<B: ComputeBackend>(
    ctx: Arc<B::Context>,
    shape: Shape,
    data: &[B::Elem],
    made: Result<Tensor<B>, FerroFlowError>,
    first: Result<Vec<B::Elem>, FerroFlowError>,
    second: Result<Vec<B::Elem>, FerroFlowError>,
)
    requires
        B::dependable(),
        data@.len() == shape.spec_size(),
        call_ensures(Tensor::<B>::new, (ctx, shape, data), made),
        made is Ok ==> call_ensures(Tensor::<B>::data, (&made->Ok_0,), first),
        made is Ok ==> call_ensures(Tensor::<B>::data, (&made->Ok_0,), second),
    ensures
        made is Ok,
        first is Ok,
        second is Ok,
        first->Ok_0@ == data@,
        second->Ok_0@ == data@,
{
}

/// On a backend that completes every request, tensors of one shape can
/// always be added: the sum has their shape, and it reads back with as many
/// elements as the shape has, each the sum of the two elements at its
/// place.
pub proof fn lemma_add_on_dependable_backend<B: ComputeBackend>(
    a: Tensor<B>,
    b: Tensor<B>,
    shape: &Shape,
    sum: Result<Tensor<B>, FerroFlowError>,
    a_read: Result<Vec<B::Elem>, FerroFlowError>,
    b_read: Result<Vec<B::Elem>, FerroFlowError>,
    sum_read: Result<Vec<B::Elem>, FerroFlowError>,
)
    requires
        B::dependable(),
        a.spec_shape() == b.spec_shape(),
        call_ensures(Tensor::<B>::shape, (&a,), shape),
        call_ensures(Tensor::<B>::add, (&a, &b), sum),
        call_ensures(Tensor::<B>::data, (&a,), a_read),
        call_ensures(Tensor::<B>::data, (&b,), b_read),
        sum is Ok ==> call_ensures(Tensor::<B>::data, (&sum->Ok_0,), sum_read),
    ensures
        sum is Ok,
        a_read is Ok,
        b_read is Ok,
        sum_read is Ok,
        sum->Ok_0.spec_shape() == a.spec_shape(),
        sum_read->Ok_0@.len() == shape.spec_size(),
        forall|i: int|
            0 <= i < shape.spec_size() ==> sum_read->Ok_0@[i] == a_read->Ok_0@[i].sum(
                b_read->Ok_0@[i],
            ),
{
}

/// On a backend that completes every request, tensors of one shape can
/// always be multiplied element by element: the product has their shape,
/// and it reads back with as many elements as the shape has, each the
/// product of the two elements at its place.
pub proof fn lemma_multiply_on_dependable_backend<B: ComputeBackend>(
    a: Tensor<B>,
    b: Tensor<B>,
    shape: &Shape,
    product: Result<Tensor<B>, FerroFlowError>,
    a_read: Result<Vec<B::Elem>, FerroFlowError>,
    b_read: Result<Vec<B::Elem>, FerroFlowError>,
    product_read: Result<Vec<B::Elem>, FerroFlowError>,
)
    requires
        B::dependable(),
        a.spec_shape() == b.spec_shape(),
        call_ensures(Tensor::<B>::shape, (&a,), shape),
        call_ensures(Tensor::<B>::multiply, (&a, &b), product),
        call_ensures(Tensor::<B>::data, (&a,), a_read),
        call_ensures(Tensor::<B>::data, (&b,), b_read),
        product is Ok ==> call_ensures(Tensor::<B>::data, (&product->Ok_0,), product_read),
    ensures
        product is Ok,
        a_read is Ok,
        b_read is Ok,
        product_read is Ok,
        product->Ok_0.spec_shape() == a.spec_shape(),
        product_read->Ok_0@.len() == shape.spec_size(),
        forall|i: int|
            0 <= i < shape.spec_size() ==> product_read->Ok_0@[i] == a_read->Ok_0@[i].product(
                b_read->Ok_0@[i],
            ),
{
}

/// On a backend that completes every request, every tensor can be
/// multiplied by every scalar: the result has the shape of the tensor, and
/// it reads back with as many elements as the tensor, each the element at
/// its place times the scalar.
pub proof fn lemma_scalar_multiply_on_dependable_backend<B: ComputeBackend>(
    a: Tensor<B>,
    scalar: B::Elem,
    scaled_up: Result<Tensor<B>, FerroFlowError>,
    a_read: Result<Vec<B::Elem>, FerroFlowError>,
    scaled_read: Result<Vec<B::Elem>, FerroFlowError>,
)
    requires
        B::dependable(),
        call_ensures(Tensor::<B>::scalar_multiply, (&a, scalar), scaled_up),
        call_ensures(Tensor::<B>::data, (&a,), a_read),
        scaled_up is Ok ==> call_ensures(Tensor::<B>::data, (&scaled_up->Ok_0,), scaled_read),
    ensures
        scaled_up is Ok,
        a_read is Ok,
        scaled_read is Ok,
        scaled_up->Ok_0.spec_shape() == a.spec_shape(),
        scaled_read->Ok_0@.len() == a_read->Ok_0@.len(),
        forall|i: int|
            0 <= i < a_read->Ok_0@.len() ==> scaled_read->Ok_0@[i] == a_read->Ok_0@[i].product(
                scalar,
            ),
{
}

/// Tensors of different shapes are neither added nor multiplied element by
/// element, whether or not they hold the same number of elements: both
/// operations fail with a shape mismatch.
pub proof fn lemma_elementwise_needs_one_shape<B: ComputeBackend>(
    a: Tensor<B>,
    b: Tensor<B>,
    sum: Result<Tensor<B>, FerroFlowError>,
    product: Result<Tensor<B>, FerroFlowError>,
)
    requires
        a.spec_shape() != b.spec_shape(),
        call_ensures(Tensor::<B>::add, (&a, &b), sum),
        call_ensures(Tensor::<B>::multiply, (&a, &b), product),
    ensures
        sum is Err && sum->Err_0 is ShapeMismatch,
        product is Err && product->Err_0 is ShapeMismatch,
{
}

/// A tensor multiplied by a scalar reads back, element by element, as what
/// the tensor reads back as times the scalar.
pub proof fn lemma_scalar_multiply_scales<B: ComputeBackend>(
    a: Tensor<B>,
    scalar: B::Elem,
    scaled_up: Tensor<B>,
    a_data: Vec<B::Elem>,
    scaled_data: Vec<B::Elem>,
)
    requires
        call_ensures(
            Tensor::<B>::scalar_multiply,
            (&a, scalar),
            Ok::<Tensor<B>, FerroFlowError>(scaled_up),
        ),
        call_ensures(Tensor::<B>::data, (&a,), Ok::<Vec<B::Elem>, FerroFlowError>(a_data)),
        call_ensures(
            Tensor::<B>::data,
            (&scaled_up,),
            Ok::<Vec<B::Elem>, FerroFlowError>(scaled_data),
        ),
    ensures
        scaled_data@ == scaled(a_data@, scalar),
        scaled_data@.len() == a_data@.len(),
        forall|i: int| 0 <= i < a_data@.len() ==> scaled_data@[i] == a_data@[i].product(scalar),
        scaled_up.spec_shape() == a.spec_shape(),
{
}

/// On the host backend, the product of an `m x k` and a `k x n` matrix is
/// the result of the naive triple loop, element for element: as long as the
/// result can be held at all, the product succeeds, has the shape `[m, n]`,
/// and reads back as [`matmul_result`].
pub proof fn lemma_cpu_matmul_is_reference<T: Element>(
    a: Tensor<CPUBackend<T>>,
    b: Tensor<CPUBackend<T>>,
    m: usize,
    n: usize,
    k: usize,
    outcome: Result<Tensor<CPUBackend<T>>, FerroFlowError>,
)
    requires
        a.spec_shape() == seq![m, k],
        b.spec_shape() == seq![k, n],
        m * n <= usize::MAX,
        call_ensures(Tensor::<CPUBackend<T>>::matmul, (&a, &b), outcome),
    ensures
        outcome is Ok,
        outcome->Ok_0.spec_shape() == seq![m, n],
        outcome->Ok_0@ == matmul_result(a@, b@, m as nat, n as nat, k as nat, false, false),
        forall|read: Vec<T>|
            call_ensures(
                Tensor::<CPUBackend<T>>::data,
                (&outcome->Ok_0,),
                Ok::<Vec<T>, FerroFlowError>(read),
            ) ==> read@ == matmul_result(a@, b@, m as nat, n as nat, k as nat, false, false),
{
    let found = MatmulRoute { batch: None, m, n, k };
    assert(1 * (m * n) == m * n);
    assert(route(a.spec_shape(), b.spec_shape(), false, false) == Ok::<MatmulRoute, Refusal>(
        found,
    ));
}

/// A batch is never multiplied with a plain matrix, and batches of
/// different counts are never multiplied: whatever the other dimensions
/// are, such operands have no route.
pub proof fn lemma_batches_must_match(
    lhs: Seq<usize>,
    rhs: Seq<usize>,
    transpose_a: bool,
    transpose_b: bool,
)
    requires
        2 <= lhs.len() <= 3,
        2 <= rhs.len() <= 3,
        lhs.len() != rhs.len() || (lhs.len() == 3 && lhs[0] != rhs[0]),
    ensures
        route(lhs, rhs, transpose_a, transpose_b) is Err,
        route(lhs, rhs, transpose_a, transpose_b)->Err_0 is InnerMismatch || route(
            lhs,
            rhs,
            transpose_a,
            transpose_b,
        )->Err_0 is BatchMismatch,
        forall|e: FerroFlowError|
            route(lhs, rhs, transpose_a, transpose_b)->Err_0.reported_as(e, lhs, rhs) ==> e is ShapeMismatch,
{
}

/// Operands whose inner dimensions differ are never multiplied.
pub proof fn lemma_inner_dimensions_must_match(
    lhs: Seq<usize>,
    rhs: Seq<usize>,
    transpose_a: bool,
    transpose_b: bool,
)
    requires
        2 <= lhs.len() <= 3,
        2 <= rhs.len() <= 3,
        operand_dims(lhs, transpose_a).1 != operand_dims(rhs, transpose_b).0,
    ensures
        route(lhs, rhs, transpose_a, transpose_b) == Err::<MatmulRoute, Refusal>(
            Refusal::InnerMismatch,
        ),
{
}

/// A row-major `rows x cols` matrix with its rows and columns swapped: the
/// row-major `cols x rows` matrix that holds entry `(r, c)` of `a` at
/// `(c, r)`.
pub open spec fn transposed<T>(a: Seq<T>, rows: nat, cols: nat) -> Seq<T> {
    Seq::new(rows * cols, |at: int| a[(at % rows as int) * cols + at / rows as int])
}

/// Reading an operand transposed is multiplying by its transpose: every
/// entry of the product with a flag set is the entry of the product of the
/// transposed copy without the flag. Here `a` is stored as `k x m` and `b`
/// as `n x k`.
pub proof fn lemma_transposed_entry<T: Element>(
    a: Seq<T>,
    b: Seq<T>,
    m: nat,
    n: nat,
    k: nat,
    row: int,
    col: int,
    upto: nat,
)
    requires
        a.len() == k * m,
        b.len() == n * k,
        0 <= row < m,
        0 <= col < n,
        upto <= k,
    ensures
        partial_entry(a, b, 0, 0, Product::of(m as int, n as int, k as int, true, true), row, col, upto)
            == partial_entry(
            transposed(a, k, m),
            transposed(b, n, k),
            0,
            0,
            Product::of(m as int, n as int, k as int, false, false),
            row,
            col,
            upto,
        ),
        partial_entry(a, b, 0, 0, Product::of(m as int, n as int, k as int, true, false), row, col, upto)
            == partial_entry(
            transposed(a, k, m),
            b,
            0,
            0,
            Product::of(m as int, n as int, k as int, false, false),
            row,
            col,
            upto,
        ),
        partial_entry(a, b, 0, 0, Product::of(m as int, n as int, k as int, false, true), row, col, upto)
            == partial_entry(
            a,
            transposed(b, n, k),
            0,
            0,
            Product::of(m as int, n as int, k as int, false, false),
            row,
            col,
            upto,
        ),
    decreases upto,
{
    if upto > 0 {
        let inner = upto - 1;
        lemma_transposed_entry(a, b, m, n, k, row, col, inner as nat);
        // the left operand: place `row * k + inner` of the transposed copy
        lemma_place_of_cell(row, inner, m as int, k as int);
        lemma_place_of_cell(inner, row, k as int, m as int);
        assert(transposed(a, k, m)[row * k + inner] == a[inner * m + row]);
        // the right operand: place `inner * n + col` of the transposed copy
        lemma_place_of_cell(inner, col, k as int, n as int);
        lemma_place_of_cell(col, inner, n as int, k as int);
        assert(transposed(b, n, k)[inner * n + col] == b[col * k + inner]);
    }
}

/// Reading operands transposed is multiplying by their transposes: the
/// product with flags set is the product of the transposed copies without
/// flags. Here `a` is stored as `k x m` and `b` as `n x k`.
pub proof fn lemma_transposed_product<T: Element>(a: Seq<T>, b: Seq<T>, m: nat, n: nat, k: nat)
    requires
        a.len() == k * m,
        b.len() == n * k,
    ensures
        matmul_result(a, b, m, n, k, true, true) == matmul_result(
            transposed(a, k, m),
            transposed(b, n, k),
            m,
            n,
            k,
            false,
            false,
        ),
        matmul_result(a, b, m, n, k, true, false) == matmul_result(
            transposed(a, k, m),
            b,
            m,
            n,
            k,
            false,
            false,
        ),
        matmul_result(a, b, m, n, k, false, true) == matmul_result(
            a,
            transposed(b, n, k),
            m,
            n,
            k,
            false,
            false,
        ),
{
    let both = matmul_result(a, b, m, n, k, true, true);
    let both_copied = matmul_result(transposed(a, k, m), transposed(b, n, k), m, n, k, false, false);
    let left = matmul_result(a, b, m, n, k, true, false);
    let left_copied = matmul_result(transposed(a, k, m), b, m, n, k, false, false);
    let right = matmul_result(a, b, m, n, k, false, true);
    let right_copied = matmul_result(a, transposed(b, n, k), m, n, k, false, false);
    assert forall|at: int| 0 <= at < m * n implies both[at] == both_copied[at] && left[at]
        == left_copied[at] && right[at] == right_copied[at] by {
        lemma_cell_of_place(at, m as int, n as int);
        lemma_transposed_entry(a, b, m, n, k, at / n as int, at % n as int, k);
    }
    assert(both =~= both_copied);
    assert(left =~= left_copied);
    assert(right =~= right_copied);
}

/// An entry of a product whose operands start somewhere in their buffers is
/// the entry of the product of the two blocks cut out of the buffers.
pub proof fn lemma_entry_of_block<T: Element>(
    a: Seq<T>,
    b: Seq<T>,
    a_base: int,
    b_base: int,
    p: Product,
    row: int,
    col: int,
    upto: nat,
)
    requires
        0 <= row < p.rows,
        0 <= col < p.cols,
        upto <= p.depth,
        0 <= a_base,
        0 <= b_base,
        a_base + p.rows * p.depth <= a.len(),
        b_base + p.depth * p.cols <= b.len(),
    ensures
        partial_entry(a, b, a_base, b_base, p, row, col, upto) == partial_entry(
            a.subrange(a_base, a_base + p.rows * p.depth),
            b.subrange(b_base, b_base + p.depth * p.cols),
            0,
            0,
            p,
            row,
            col,
            upto,
        ),
    decreases upto,
{
    if upto > 0 {
        let inner = upto - 1;
        lemma_entry_of_block(a, b, a_base, b_base, p, row, col, inner as nat);
        lemma_place_of_cell(row, inner, p.rows, p.depth);
        lemma_place_of_cell(inner, row, p.depth, p.rows);
        lemma_place_of_cell(inner, col, p.depth, p.cols);
        lemma_place_of_cell(col, inner, p.cols, p.depth);
    }
}

/// The pairs of a batch are multiplied independently, and their products
/// stand one after the other: the part of a batched product that belongs to
/// pair number `pair` is the plain product of that pair's two matrices.
pub proof fn lemma_batch_is_pair_by_pair<T: Element>(
    a: Seq<T>,
    b: Seq<T>,
    batch: nat,
    m: nat,
    n: nat,
    k: nat,
    transpose_a: bool,
    transpose_b: bool,
    pair: nat,
)
    requires
        a.len() == batch * (m * k),
        b.len() == batch * (k * n),
        pair < batch,
    ensures
        (pair + 1) * (m * n) <= batch * (m * n),
        (pair + 1) * (m * k) <= a.len(),
        (pair + 1) * (k * n) <= b.len(),
        batched_matmul_result(a, b, batch, m, n, k, transpose_a, transpose_b).subrange(
            (pair * (m * n)) as int,
            ((pair + 1) * (m * n)) as int,
        ) == matmul_result(
            a.subrange((pair * (m * k)) as int, ((pair + 1) * (m * k)) as int),
            b.subrange((pair * (k * n)) as int, ((pair + 1) * (k * n)) as int),
            m,
            n,
            k,
            transpose_a,
            transpose_b,
        ),
{
    let p = Product::of(m as int, n as int, k as int, transpose_a, transpose_b);
    let (a_block, b_block, c_block) = ((m * k) as int, (k * n) as int, (m * n) as int);
    lemma_part_of_batch(pair as int, batch as int, a_block);
    lemma_part_of_batch(pair as int, batch as int, b_block);
    lemma_part_of_batch(pair as int, batch as int, c_block);
    let whole = batched_matmul_result(a, b, batch, m, n, k, transpose_a, transpose_b);
    let part = whole.subrange(pair * c_block, (pair + 1) * c_block);
    let a_pair = a.subrange(pair * a_block, (pair + 1) * a_block);
    let b_pair = b.subrange(pair * b_block, (pair + 1) * b_block);
    let alone = matmul_result(a_pair, b_pair, m, n, k, transpose_a, transpose_b);
    assert(part.len() == alone.len());
    assert forall|at: int| 0 <= at < c_block implies part[at] == alone[at] by {
        lemma_cell_of_place(at, m as int, n as int);
        lemma_fundamental_div_mod_converse(
            pair * c_block + at,
            c_block,
            pair as int,
            at,
        );
        lemma_entry_of_block(
            a,
            b,
            pair * a_block,
            pair * b_block,
            p,
            at / n as int,
            at % n as int,
            k,
        );
    }
    assert(part =~= alone);
}

} // verus!
