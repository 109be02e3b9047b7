//! Tensors: a backend buffer, its shape, and the context it was made in.

mod chain;
mod route;
mod shape;

pub use chain::{pending_transpose_text, TensorChain, TransposedTensor};
pub use route::{
    inner_mismatch_text, lemma_route_sizes, operand_dims, plan_matmul, route, MatmulRoute, Refusal,
};
pub use shape::{
    dims_product, lemma_product_of_batch, lemma_product_of_matrix, lemma_product_with_zero, Shape,
};

use crate::compute::{
    lemma_place_of_cell, pairwise_product, pairwise_sum, scaled, zero_filled, ComputeBackend,
    Element,
};
use crate::error::FerroFlowError;
use crate::text::{decimal, push_decimal, push_shape, shape_text};
use std::sync::Arc;
use vstd::prelude::*;
use vstd::string::StringExecFns;

verus! {

/// The report for data whose length is not the size of the shape.
pub open spec fn length_mismatch_text(len: nat, dims: Seq<usize>) -> Seq<char> {
    "Data length "@ + decimal(len) + " doesn't match shape size "@ + size_text(dims)
}

/// The size of a shape in decimal, or the shape itself where the size is too
/// large to be a length.
pub open spec fn size_text(dims: Seq<usize>) -> Seq<char> {
    if dims_product(dims) <= usize::MAX {
        decimal(dims_product(dims))
    } else {
        "of "@ + shape_text(dims)
    }
}

/// The report for two operands of different shapes; `verb` names the
/// operation.
pub open spec fn shape_mismatch_text(verb: Seq<char>, lhs: Seq<usize>, rhs: Seq<usize>) -> Seq<
    char,
> {
    "Cannot "@ + verb + " tensors with shapes "@ + shape_text(lhs) + " and "@ + shape_text(rhs)
}

/// The report for a shape too large to allocate.
pub open spec fn too_large_text(dims: Seq<usize>) -> Seq<char> {
    "Too many elements in "@ + shape_text(dims)
}

/// The elements of the `n x n` identity matrix, row-major.
pub open spec fn identity_elements<T: Element>(n: nat) -> Seq<T> {
    Seq::new(
        n * n,
        |at: int|
            if at / n as int == at % n as int {
                T::one_value()
            } else {
                T::zero_value()
            },
    )
}

/// `len` copies of `value`.
pub open spec fn filled_with<T>(len: nat, value: T) -> Seq<T> {
    Seq::new(len, |i: int| value)
}

/// [`Arc::clone`]: a second handle to the context behind `ctx`. What the new
/// handle points to is what the old one points to.
#[verifier::external_body]
fn share<C>(ctx: &Arc<C>) -> (r: Arc<C>)
    ensures
        r == *ctx,
{
    Arc::clone(ctx)
}

fn length_mismatch(len: usize, shape: &Shape) -> (e: FerroFlowError)
    ensures
        e is ShapeMismatch,
        e.detail() == length_mismatch_text(len as nat, shape@),
{
    let mut text = String::from_str("Data length ");
    push_decimal(&mut text, len);
    text.append(" doesn't match shape size ");
    let ghost head = text@;
    match shape.checked_size() {
        Some(size) => {
            push_decimal(&mut text, size);
        },
        None => {
            text.append("of ");
            push_shape(&mut text, shape.dims());
            assert(text@ =~= head + ("of "@ + shape_text(shape@)));
        },
    }
    assert(text@ =~= length_mismatch_text(len as nat, shape@));
    FerroFlowError::ShapeMismatch(text)
}

fn shape_mismatch(verb: &str, lhs: &Shape, rhs: &Shape) -> (e: FerroFlowError)
    ensures
        e is ShapeMismatch,
        e.detail() == shape_mismatch_text(verb@, lhs@, rhs@),
{
    let mut text = String::from_str("Cannot ");
    text.append(verb);
    text.append(" tensors with shapes ");
    push_shape(&mut text, lhs.dims());
    text.append(" and ");
    push_shape(&mut text, rhs.dims());
    assert(text@ =~= shape_mismatch_text(verb@, lhs@, rhs@));
    FerroFlowError::ShapeMismatch(text)
}

fn too_large(shape: &Shape) -> (e: FerroFlowError)
    ensures
        e is InvalidOperation,
        e.detail() == too_large_text(shape@),
{
    let mut text = String::from_str("Too many elements in ");
    push_shape(&mut text, shape.dims());
    FerroFlowError::InvalidOperation(text)
}

/// A generic tensor that works with any compute backend.
///
/// A tensor is never changed in place: every operation returns a new
/// tensor and leaves its operands as they were. The buffer always holds as
/// many elements as the shape has. The context is shared with every tensor
/// made from this one.
pub struct Tensor<B: ComputeBackend> {
    buffer: B::Buffer,
    shape: Shape,
    ctx: Arc<B::Context>,
}

impl<B: ComputeBackend> View for Tensor<B> {
    type V = Seq<B::Elem>;

    /// The elements of the tensor, row-major.
    closed spec fn view(&self) -> Seq<B::Elem> {
        B::contents(&self.buffer)@
    }
}

impl<B: ComputeBackend> Tensor<B> {
    #[verifier::type_invariant]
    spec fn well_formed(self) -> bool {
        B::contents(&self.buffer)@.len() == dims_product(self.shape@) <= usize::MAX
    }

    /// The dimensions of the tensor.
    pub closed spec fn spec_shape(self) -> Seq<usize> {
        self.shape@
    }

    /// The context the tensor was made in.
    pub closed spec fn spec_context(self) -> Arc<B::Context> {
        self.ctx
    }

    /// The buffer that holds the elements.
    pub closed spec fn spec_buffer(self) -> B::Buffer {
        self.buffer
    }

    /// Whether `r` is what the backend's `outcome` becomes when it is
    /// wrapped: a tensor around the buffer, or the backend's failure as it
    /// is.
    pub open spec fn wraps(
        r: Result<Self, FerroFlowError>,
        outcome: Result<B::Buffer, FerroFlowError>,
    ) -> bool {
        match outcome {
            Ok(buffer) => r matches Ok(t) && t.spec_buffer() == buffer,
            Err(e) => r == Err::<Self, FerroFlowError>(e),
        }
    }

    /// Whether `r` wraps an outcome of the backend's allocation of `size`
    /// elements in `ctx`.
    pub open spec fn allocated(
        ctx: Arc<B::Context>,
        size: usize,
        data: Option<&[B::Elem]>,
        r: Result<Self, FerroFlowError>,
    ) -> bool {
        exists|outcome: Result<B::Buffer, FerroFlowError>|
            Self::wraps(r, outcome) && #[trigger] call_ensures(
                B::allocate_buffer,
                (&*ctx, size, data),
                outcome,
            )
    }

    /// Whether `r` wraps an outcome of the backend's element-wise addition
    /// of the buffers of `self` and `other`.
    pub open spec fn added(self, other: Self, r: Result<Self, FerroFlowError>) -> bool {
        exists|outcome: Result<B::Buffer, FerroFlowError>|
            Self::wraps(r, outcome) && #[trigger] call_ensures(
                B::element_wise_add,
                (
                    &*self.spec_context(),
                    &self.spec_buffer(),
                    &other.spec_buffer(),
                    self@.len() as usize,
                ),
                outcome,
            )
    }

    /// Whether `r` wraps an outcome of the backend's element-wise
    /// multiplication of the buffers of `self` and `other`.
    pub open spec fn multiplied(self, other: Self, r: Result<Self, FerroFlowError>) -> bool {
        exists|outcome: Result<B::Buffer, FerroFlowError>|
            Self::wraps(r, outcome) && #[trigger] call_ensures(
                B::element_wise_multiply,
                (
                    &*self.spec_context(),
                    &self.spec_buffer(),
                    &other.spec_buffer(),
                    self@.len() as usize,
                ),
                outcome,
            )
    }

    /// Whether `r` wraps an outcome of the backend's multiplication of the
    /// buffer of `self` by `scalar`.
    pub open spec fn scaled_by(self, scalar: B::Elem, r: Result<Self, FerroFlowError>) -> bool {
        exists|outcome: Result<B::Buffer, FerroFlowError>|
            Self::wraps(r, outcome) && #[trigger] call_ensures(
                B::scalar_multiply,
                (&*self.spec_context(), &self.spec_buffer(), scalar, self@.len() as usize),
                outcome,
            )
    }

    /// Whether `r` wraps an outcome of the backend's product without
    /// transposition for the route `found`: of
    /// [`ComputeBackend::matmul_batched`] for a batch, of
    /// [`ComputeBackend::matmul`] for plain matrices.
    pub open spec fn dispatched(
        self,
        other: Self,
        found: MatmulRoute,
        r: Result<Self, FerroFlowError>,
    ) -> bool {
        match found.batch {
            Some(batch) => exists|outcome: Result<B::Buffer, FerroFlowError>|
                Self::wraps(r, outcome) && #[trigger] call_ensures(
                    B::matmul_batched,
                    (
                        &*self.spec_context(),
                        &self.spec_buffer(),
                        &other.spec_buffer(),
                        batch,
                        found.m,
                        found.n,
                        found.k,
                    ),
                    outcome,
                ),
            None => exists|outcome: Result<B::Buffer, FerroFlowError>|
                Self::wraps(r, outcome) && #[trigger] call_ensures(
                    B::matmul,
                    (
                        &*self.spec_context(),
                        &self.spec_buffer(),
                        &other.spec_buffer(),
                        found.m,
                        found.n,
                        found.k,
                    ),
                    outcome,
                ),
        }
    }

    /// Whether `r` wraps an outcome of the backend's product with
    /// transposition for the route `found`: of
    /// [`ComputeBackend::matmul_transposed_batched`] for a batch, of
    /// [`ComputeBackend::matmul_transposed`] for plain matrices.
    pub open spec fn dispatched_transposed(
        self,
        other: Self,
        found: MatmulRoute,
        transpose_a: bool,
        transpose_b: bool,
        r: Result<Self, FerroFlowError>,
    ) -> bool {
        match found.batch {
            Some(batch) => exists|outcome: Result<B::Buffer, FerroFlowError>|
                Self::wraps(r, outcome) && #[trigger] call_ensures(
                    B::matmul_transposed_batched,
                    (
                        &*self.spec_context(),
                        &self.spec_buffer(),
                        &other.spec_buffer(),
                        batch,
                        found.m,
                        found.n,
                        found.k,
                        transpose_a,
                        transpose_b,
                    ),
                    outcome,
                ),
            None => exists|outcome: Result<B::Buffer, FerroFlowError>|
                Self::wraps(r, outcome) && #[trigger] call_ensures(
                    B::matmul_transposed,
                    (
                        &*self.spec_context(),
                        &self.spec_buffer(),
                        &other.spec_buffer(),
                        found.m,
                        found.n,
                        found.k,
                        transpose_a,
                        transpose_b,
                    ),
                    outcome,
                ),
        }
    }

    /// Wraps what a backend returned for a request of `shape` elements: a
    /// buffer becomes a tensor of that shape, a failure is handed on as it
    /// is.
    pub fn from_backend(
        ctx: Arc<B::Context>,
        shape: Shape,
        outcome: Result<B::Buffer, FerroFlowError>,
    ) -> (r: Result<Self, FerroFlowError>)
        requires
            outcome matches Ok(buffer) ==> B::contents(&buffer)@.len() == shape.spec_size()
                <= usize::MAX,
        ensures
            Self::wraps(r, outcome),
            r matches Ok(t) ==> t@ == B::contents(&outcome->Ok_0)@ && t.spec_shape() == shape@
                && t.spec_context() == ctx,
    {
        match outcome {
            Ok(buffer) => Ok(Tensor { buffer, shape, ctx }),
            Err(e) => Err(e),
        }
    }

    /// Creates a new tensor with the given shape and data.
    ///
    /// This is the one place where data is held against a shape: data of any
    /// other length than the size of the shape is refused, and no backend
    /// ever sees it. Data that fits is handed to the backend, which
    /// allocates the buffer.
    pub fn new(ctx: Arc<B::Context>, shape: Shape, data: &[B::Elem]) -> (r: Result<
        Self,
        FerroFlowError,
    >)
        ensures
            data@.len() != shape.spec_size() ==> r is Err && r->Err_0 is ShapeMismatch
                && r->Err_0.detail() == length_mismatch_text(data@.len(), shape@),
            data@.len() == shape.spec_size() ==> {
                &&& Self::allocated(ctx, data@.len() as usize, Some(data), r)
                &&& r matches Ok(t) ==> t@ == data@ && t.spec_shape() == shape@
                    && t.spec_context() == ctx
                &&& B::dependable() ==> r is Ok
            },
    {
        match shape.checked_size() {
            Some(size) if size == data.len() => {
                let outcome = B::allocate_buffer(&ctx, size, Some(data));
                assert(call_ensures(B::allocate_buffer, (&*ctx, size, Some(data)), outcome));
                Self::from_backend(ctx, shape, outcome)
            },
            _ => Err(length_mismatch(data.len(), &shape)),
        }
    }

    /// Creates a new tensor filled with zeros. A shape with more elements
    /// than a buffer can hold is refused.
    pub fn zeros(ctx: Arc<B::Context>, shape: Shape) -> (r: Result<Self, FerroFlowError>)
        ensures
            shape.spec_size() > usize::MAX ==> r is Err && r->Err_0 is InvalidOperation
                && r->Err_0.detail() == too_large_text(shape@),
            shape.spec_size() <= usize::MAX ==> {
                &&& Self::allocated(ctx, shape.spec_size() as usize, None, r)
                &&& r matches Ok(t) ==> t@ == zero_filled::<B::Elem>(shape.spec_size())
                    && t.spec_shape() == shape@ && t.spec_context() == ctx
                &&& B::dependable() ==> r is Ok
            },
    {
        match shape.checked_size() {
            Some(size) => {
                let outcome = B::allocate_buffer(&ctx, size, None);
                assert(call_ensures(B::allocate_buffer, (&*ctx, size, None), outcome));
                Self::from_backend(ctx, shape, outcome)
            },
            None => Err(too_large(&shape)),
        }
    }

    /// Creates the `size x size` identity matrix: what [`Tensor::new`] makes
    /// of its elements. A size whose square is more than a buffer can hold
    /// is refused.
    pub fn eye(ctx: Arc<B::Context>, size: usize) -> (r: Result<Self, FerroFlowError>)
        ensures
            size * size > usize::MAX ==> r is Err && r->Err_0 is InvalidOperation
                && r->Err_0.detail() == too_large_text(seq![size, size]),
            size * size <= usize::MAX ==> {
                &&& exists|shape: Shape, data: &[B::Elem]|
                    shape@ == seq![size, size] && data@ == identity_elements::<B::Elem>(
                        size as nat,
                    ) && #[trigger] call_ensures(Self::new, (ctx, shape, data), r)
                &&& r matches Ok(t) ==> t@ == identity_elements::<B::Elem>(size as nat)
                    && t.spec_shape() == seq![size, size] && t.spec_context() == ctx
                &&& B::dependable() ==> r is Ok
            },
    {
        let shape = Shape::new(vec![size, size]);
        assert(shape@ =~= seq![size, size]);
        proof {
            lemma_product_of_matrix(size, size);
        }
        if shape.checked_size().is_none() {
            return Err(too_large(&shape));
        }
        let mut data: Vec<B::Elem> = Vec::new();
        let mut row: usize = 0;
        while row < size
            invariant
                row <= size,
                data@.len() == row * size,
                forall|at: int|
                    0 <= at < row * size ==> #[trigger] data@[at] == (if at / size as int == at
                        % size as int {
                        B::Elem::one_value()
                    } else {
                        B::Elem::zero_value()
                    }),
                size * size <= usize::MAX,
            decreases size - row,
        {
            let mut col: usize = 0;
            while col < size
                invariant
                    row < size,
                    col <= size,
                    data@.len() == row * size + col,
                    forall|at: int|
                        0 <= at < row * size + col ==> #[trigger] data@[at] == (if at / size as int
                            == at % size as int {
                            B::Elem::one_value()
                        } else {
                            B::Elem::zero_value()
                        }),
                    size * size <= usize::MAX,
                decreases size - col,
            {
                proof {
                    lemma_place_of_cell(row as int, col as int, size as int, size as int);
                }
                if row == col {
                    data.push(B::Elem::one());
                } else {
                    data.push(B::Elem::zero());
                }
                col += 1;
            }
            assert(row * size + size == (row + 1) * size) by (nonlinear_arith);
            row += 1;
        }
        assert(data@ =~= identity_elements::<B::Elem>(size as nat));
        let elements = data.as_slice();
        let ghost made_of = (ctx, shape, elements);
        let r = Self::new(ctx, shape, elements);
        assert(call_ensures(Self::new, made_of, r));
        r
    }

    /// Creates a tensor of the given shape with every element `value`: what
    /// [`Tensor::new`] makes of that many copies. A shape with more
    /// elements than a buffer can hold is refused.
    pub fn full(ctx: Arc<B::Context>, shape: Shape, value: B::Elem) -> (r: Result<
        Self,
        FerroFlowError,
    >)
        ensures
            shape.spec_size() > usize::MAX ==> r is Err && r->Err_0 is InvalidOperation
                && r->Err_0.detail() == too_large_text(shape@),
            shape.spec_size() <= usize::MAX ==> {
                &&& exists|data: &[B::Elem]|
                    data@ == filled_with(shape.spec_size(), value) && #[trigger] call_ensures(
                        Self::new,
                        (ctx, shape, data),
                        r,
                    )
                &&& r matches Ok(t) ==> t@ == filled_with(shape.spec_size(), value)
                    && t.spec_shape() == shape@ && t.spec_context() == ctx
                &&& B::dependable() ==> r is Ok
            },
    {
        let size = match shape.checked_size() {
            Some(size) => size,
            None => {
                return Err(too_large(&shape));
            },
        };
        let mut data: Vec<B::Elem> = Vec::new();
        let mut i: usize = 0;
        while i < size
            invariant
                i <= size,
                data@ == filled_with(i as nat, value),
            decreases size - i,
        {
            data.push(value);
            assert(data@ =~= filled_with((i + 1) as nat, value));
            i += 1;
        }
        let elements = data.as_slice();
        let ghost made_of = (ctx, shape, elements);
        let r = Self::new(ctx, shape, elements);
        assert(call_ensures(Self::new, made_of, r));
        r
    }

    /// Returns the shape of the tensor. The tensor holds exactly as many
    /// elements as its shape has.
    pub fn shape(&self) -> (s: &Shape)
        ensures
            s@ == self.spec_shape(),
            self@.len() == s.spec_size() <= usize::MAX,
    {
        proof {
            use_type_invariant(self);
        }
        &self.shape
    }

    /// Reads the elements of the tensor back: whatever the backend gives
    /// for the buffer.
    pub fn data(&self) -> (r: Result<Vec<B::Elem>, FerroFlowError>)
        ensures
            call_ensures(B::read_buffer, (&*self.spec_context(), &self.spec_buffer()), r),
            r matches Ok(elements) ==> elements@ == self@,
            B::dependable() ==> r is Ok,
    {
        B::read_buffer(&self.ctx, &self.buffer)
    }

    /// Element-wise addition of two tensors of the same shape. Tensors of
    /// different shapes are refused; for others the backend adds the two
    /// buffers.
    pub fn add(&self, other: &Self) -> (r: Result<Self, FerroFlowError>)
        ensures
            self.spec_shape() != other.spec_shape() ==> r is Err && r->Err_0 is ShapeMismatch
                && r->Err_0.detail() == shape_mismatch_text(
                "add"@,
                self.spec_shape(),
                other.spec_shape(),
            ),
            self.spec_shape() == other.spec_shape() ==> {
                &&& self.added(*other, r)
                &&& r matches Ok(t) ==> t@ == pairwise_sum(self@, other@) && t.spec_shape()
                    == self.spec_shape() && t.spec_context() == self.spec_context()
                &&& B::dependable() ==> r is Ok
            },
    {
        proof {
            use_type_invariant(self);
            use_type_invariant(other);
        }
        if !(self.shape == other.shape) {
            return Err(shape_mismatch("add", &self.shape, &other.shape));
        }
        let size = self.shape.size();
        let outcome = B::element_wise_add(&self.ctx, &self.buffer, &other.buffer, size);
        assert(size == self@.len() as usize);
        assert(call_ensures(
            B::element_wise_add,
            (&*self.ctx, &self.buffer, &other.buffer, self@.len() as usize),
            outcome,
        ));
        Self::from_backend(share(&self.ctx), self.shape.clone(), outcome)
    }

    /// Element-wise multiplication of two tensors of the same shape.
    /// Tensors of different shapes are refused; for others the backend
    /// multiplies the two buffers.
    pub fn multiply(&self, other: &Self) -> (r: Result<Self, FerroFlowError>)
        ensures
            self.spec_shape() != other.spec_shape() ==> r is Err && r->Err_0 is ShapeMismatch
                && r->Err_0.detail() == shape_mismatch_text(
                "multiply"@,
                self.spec_shape(),
                other.spec_shape(),
            ),
            self.spec_shape() == other.spec_shape() ==> {
                &&& self.multiplied(*other, r)
                &&& r matches Ok(t) ==> t@ == pairwise_product(self@, other@) && t.spec_shape()
                    == self.spec_shape() && t.spec_context() == self.spec_context()
                &&& B::dependable() ==> r is Ok
            },
    {
        proof {
            use_type_invariant(self);
            use_type_invariant(other);
        }
        if !(self.shape == other.shape) {
            return Err(shape_mismatch("multiply", &self.shape, &other.shape));
        }
        let size = self.shape.size();
        let outcome = B::element_wise_multiply(&self.ctx, &self.buffer, &other.buffer, size);
        assert(size == self@.len() as usize);
        assert(call_ensures(
            B::element_wise_multiply,
            (&*self.ctx, &self.buffer, &other.buffer, self@.len() as usize),
            outcome,
        ));
        Self::from_backend(share(&self.ctx), self.shape.clone(), outcome)
    }

    /// Multiplication of every element by a scalar value, by the backend.
    pub fn scalar_multiply(&self, scalar: B::Elem) -> (r: Result<Self, FerroFlowError>)
        ensures
            self.scaled_by(scalar, r),
            r matches Ok(t) ==> t@ == scaled(self@, scalar) && t.spec_shape() == self.spec_shape()
                && t.spec_context() == self.spec_context(),
            B::dependable() ==> r is Ok,
    {
        proof {
            use_type_invariant(self);
        }
        let size = self.shape.size();
        let outcome = B::scalar_multiply(&self.ctx, &self.buffer, scalar, size);
        assert(size == self@.len() as usize);
        assert(call_ensures(
            B::scalar_multiply,
            (&*self.ctx, &self.buffer, scalar, self@.len() as usize),
            outcome,
        ));
        Self::from_backend(share(&self.ctx), self.shape.clone(), outcome)
    }

    /// The tensor with every element negated: multiplied by minus one.
    pub fn negate(&self) -> (r: Result<Self, FerroFlowError>)
        ensures
            self.scaled_by(B::Elem::minus_one_value(), r),
            r matches Ok(t) ==> t@ == scaled(self@, B::Elem::minus_one_value()) && t.spec_shape()
                == self.spec_shape() && t.spec_context() == self.spec_context(),
            B::dependable() ==> r is Ok,
    {
        self.scalar_multiply(B::Elem::minus_one())
    }

    /// Wraps the tensor for a product that reads it transposed.
    pub fn t(&self) -> (r: TransposedTensor<'_, B>)
        ensures
            r.operand() == *self,
            r.is_transposed(),
    {
        TransposedTensor::wrap(self, true)
    }

    /// Starts a chain of operations on the tensor.
    pub fn chain(self) -> (c: TensorChain<B>)
        ensures
            c.held() == Ok::<Self, FerroFlowError>(self),
            !c.marked(),
    {
        TensorChain::start(self)
    }

    /// Performs matrix multiplication with another tensor.
    ///
    /// Two plain matrices give a plain matrix, two batches of the same count
    /// give a batch. See [`route`] for the shapes that are refused. For
    /// the others the backend multiplies the buffers, with its batched
    /// product where the operands are batches.
    pub fn matmul(&self, other: &Self) -> (r: Result<Self, FerroFlowError>)
        ensures
            match route(self.spec_shape(), other.spec_shape(), false, false) {
                Ok(found) => {
                    &&& self.dispatched(*other, found, r)
                    &&& r matches Ok(t) ==> t.spec_shape() == found.result_dims()
                        && t.spec_context() == self.spec_context() && (B::sums_in_order() ==> t@
                        == found.result(self@, other@, false, false))
                    &&& B::dependable() ==> r is Ok
                },
                Err(why) => r is Err && why.reported_as(
                    r->Err_0,
                    self.spec_shape(),
                    other.spec_shape(),
                ),
            },
    {
        proof {
            use_type_invariant(self);
            use_type_invariant(other);
        }
        let found = match plan_matmul(&self.shape, &other.shape, false, false) {
            Ok(found) => found,
            Err(e) => {
                return Err(e);
            },
        };
        proof {
            lemma_route_sizes(self.shape@, other.shape@, false, false);
        }
        let outcome = match found.batch {
            Some(batch) => {
                let outcome = B::matmul_batched(
                    &self.ctx,
                    &self.buffer,
                    &other.buffer,
                    batch,
                    found.m,
                    found.n,
                    found.k,
                );
                assert(call_ensures(
                    B::matmul_batched,
                    (&*self.ctx, &self.buffer, &other.buffer, batch, found.m, found.n, found.k),
                    outcome,
                ));
                outcome
            },
            None => {
                let outcome = B::matmul(
                    &self.ctx,
                    &self.buffer,
                    &other.buffer,
                    found.m,
                    found.n,
                    found.k,
                );
                assert(call_ensures(
                    B::matmul,
                    (&*self.ctx, &self.buffer, &other.buffer, found.m, found.n, found.k),
                    outcome,
                ));
                outcome
            },
        };
        proof {
            let block = found.m * found.n;
            assert(found.batch is None ==> found.count() * block == block);
            assert(outcome matches Ok(buffer) ==> B::contents(&buffer)@.len() == found.count()
                * block);
        }
        Self::from_backend(share(&self.ctx), found.result_shape(), outcome)
    }

    /// Performs matrix multiplication with `self` read as transposed if
    /// `transpose_a` and `other` if `transpose_b`. A transposed operand has
    /// its rows and columns swapped before the shapes are held against each
    /// other; no transposed copy is made. The backend multiplies the
    /// buffers with its product for transposed operands, batched where the
    /// operands are batches.
    pub fn matmul_transposed(&self, other: &Self, transpose_a: bool, transpose_b: bool) -> (r:
        Result<Self, FerroFlowError>)
        ensures
            match route(self.spec_shape(), other.spec_shape(), transpose_a, transpose_b) {
                Ok(found) => {
                    &&& self.dispatched_transposed(*other, found, transpose_a, transpose_b, r)
                    &&& r matches Ok(t) ==> t.spec_shape() == found.result_dims()
                        && t.spec_context() == self.spec_context() && (B::sums_in_order() ==> t@
                        == found.result(self@, other@, transpose_a, transpose_b))
                    &&& B::dependable() ==> r is Ok
                },
                Err(why) => r is Err && why.reported_as(
                    r->Err_0,
                    self.spec_shape(),
                    other.spec_shape(),
                ),
            },
    {
        proof {
            use_type_invariant(self);
            use_type_invariant(other);
        }
        let found = match plan_matmul(&self.shape, &other.shape, transpose_a, transpose_b) {
            Ok(found) => found,
            Err(e) => {
                return Err(e);
            },
        };
        proof {
            lemma_route_sizes(self.shape@, other.shape@, transpose_a, transpose_b);
        }
        let outcome = match found.batch {
            Some(batch) => {
                let outcome = B::matmul_transposed_batched(
                    &self.ctx,
                    &self.buffer,
                    &other.buffer,
                    batch,
                    found.m,
                    found.n,
                    found.k,
                    transpose_a,
                    transpose_b,
                );
                assert(call_ensures(
                    B::matmul_transposed_batched,
                    (
                        &*self.ctx,
                        &self.buffer,
                        &other.buffer,
                        batch,
                        found.m,
                        found.n,
                        found.k,
                        transpose_a,
                        transpose_b,
                    ),
                    outcome,
                ));
                outcome
            },
            None => {
                let outcome = B::matmul_transposed(
                    &self.ctx,
                    &self.buffer,
                    &other.buffer,
                    found.m,
                    found.n,
                    found.k,
                    transpose_a,
                    transpose_b,
                );
                assert(call_ensures(
                    B::matmul_transposed,
                    (
                        &*self.ctx,
                        &self.buffer,
                        &other.buffer,
                        found.m,
                        found.n,
                        found.k,
                        transpose_a,
                        transpose_b,
                    ),
                    outcome,
                ));
                outcome
            },
        };
        proof {
            let block = found.m * found.n;
            assert(found.batch is None ==> found.count() * block == block);
            assert(outcome matches Ok(buffer) ==> B::contents(&buffer)@.len() == found.count()
                * block);
        }
        Self::from_backend(share(&self.ctx), found.result_shape(), outcome)
    }
}

} // verus!
