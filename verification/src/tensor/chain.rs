//! Composition of tensor operations: transposed operands and chains of
//! operations that stop at the first failure.

use super::Tensor;
use crate::compute::ComputeBackend;
use crate::error::FerroFlowError;
use vstd::prelude::*;
use vstd::string::StringExecFns;

verus! {

/// A tensor together with the request to read it transposed in a matrix
/// product.
pub struct TransposedTensor<'a, B: ComputeBackend> {
    tensor: &'a Tensor<B>,
    transpose: bool,
}

impl<'a, B: ComputeBackend> TransposedTensor<'a, B> {
    /// The tensor behind the wrapper.
    pub closed spec fn operand(self) -> Tensor<B> {
        *self.tensor
    }

    /// Whether the tensor is to be read transposed.
    pub closed spec fn is_transposed(self) -> bool {
        self.transpose
    }

    pub(crate) fn wrap(tensor: &'a Tensor<B>, transpose: bool) -> (r: Self)
        ensures
            r.operand() == *tensor,
            r.is_transposed() == transpose,
    {
        TransposedTensor { tensor, transpose }
    }

    /// The product of the two wrapped tensors, each read as its wrapper
    /// says: exactly what [`Tensor::matmul_transposed`] gives for them.
    pub fn matmul(&self, other: &TransposedTensor<'a, B>) -> (r: Result<Tensor<B>, FerroFlowError>)
        ensures
            call_ensures(
                Tensor::<B>::matmul_transposed,
                (&self.operand(), &other.operand(), self.is_transposed(), other.is_transposed()),
                r,
            ),
    {
        self.tensor.matmul_transposed(other.tensor, self.transpose, other.transpose)
    }
}

/// A chain of operations on a tensor.
///
/// The chain holds the result so far. Once that is a failure, every further
/// step hands the chain on unchanged, so the first failure is the one that
/// [`TensorChain::finish`] returns.
///
/// [`TensorChain::transpose`] makes no copy: it marks the held tensor as
/// transposed, and the next [`TensorChain::matmul`] reads it that way.
pub struct TensorChain<B: ComputeBackend> {
    tensor: Result<Tensor<B>, FerroFlowError>,
    transposed: bool,
}

/// The report for a step that cannot take a transposed operand.
pub open spec fn pending_transpose_text(step: Seq<char>) -> Seq<char> {
    "Cannot "@ + step + " a tensor that is marked as transposed"@
}

fn pending_transpose(step: &str) -> (e: FerroFlowError)
    ensures
        e is InvalidOperation,
        e.detail() == pending_transpose_text(step@),
{
    let mut text = String::from_str("Cannot ");
    text.append(step);
    text.append(" a tensor that is marked as transposed");
    FerroFlowError::InvalidOperation(text)
}

impl<B: ComputeBackend> TensorChain<B> {
    /// The result so far.
    pub closed spec fn held(self) -> Result<Tensor<B>, FerroFlowError> {
        self.tensor
    }

    /// Whether the held tensor is marked as transposed.
    pub closed spec fn marked(self) -> bool {
        self.transposed
    }

    pub(crate) fn start(tensor: Tensor<B>) -> (c: Self)
        ensures
            c.held() == Ok::<Tensor<B>, FerroFlowError>(tensor),
            !c.marked(),
    {
        TensorChain { tensor: Ok(tensor), transposed: false }
    }

    /// Multiplies the held tensor by `other`. A held tensor that is marked
    /// as transposed is read transposed, and the mark is used up.
    pub fn matmul(self, other: &Tensor<B>) -> (next: Self)
        ensures
            match self.held() {
                Ok(t) => !next.marked() && if self.marked() {
                    call_ensures(
                        Tensor::<B>::matmul_transposed,
                        (&t, other, true, false),
                        next.held(),
                    )
                } else {
                    call_ensures(Tensor::<B>::matmul, (&t, other), next.held())
                },
                Err(_) => next == self,
            },
    {
        match self.tensor {
            Ok(t) => {
                let product = if self.transposed {
                    t.matmul_transposed(other, true, false)
                } else {
                    t.matmul(other)
                };
                TensorChain { tensor: product, transposed: false }
            },
            Err(e) => TensorChain { tensor: Err(e), transposed: self.transposed },
        }
    }

    /// Marks the held tensor as transposed, or takes the mark off again.
    pub fn transpose(self) -> (next: Self)
        ensures
            match self.held() {
                Ok(_) => next.held() == self.held() && next.marked() == !self.marked(),
                Err(_) => next == self,
            },
    {
        match self.tensor {
            Ok(t) => TensorChain { tensor: Ok(t), transposed: !self.transposed },
            Err(e) => TensorChain { tensor: Err(e), transposed: self.transposed },
        }
    }

    /// Adds `other` to the held tensor, element by element. A tensor that
    /// is marked as transposed cannot be added to.
    pub fn add(self, other: &Tensor<B>) -> (next: Self)
        ensures
            match self.held() {
                Ok(t) => !next.marked() && if self.marked() {
                    next.held() is Err && next.held()->Err_0 is InvalidOperation
                        && next.held()->Err_0.detail() == pending_transpose_text("add to"@)
                } else {
                    call_ensures(Tensor::<B>::add, (&t, other), next.held())
                },
                Err(_) => next == self,
            },
    {
        match self.tensor {
            Ok(t) => {
                let sum = if self.transposed {
                    Err(pending_transpose("add to"))
                } else {
                    t.add(other)
                };
                TensorChain { tensor: sum, transposed: false }
            },
            Err(e) => TensorChain { tensor: Err(e), transposed: self.transposed },
        }
    }

    /// Multiplies the held tensor by `other`, element by element. A tensor
    /// that is marked as transposed cannot be multiplied this way.
    pub fn multiply(self, other: &Tensor<B>) -> (next: Self)
        ensures
            match self.held() {
                Ok(t) => !next.marked() && if self.marked() {
                    next.held() is Err && next.held()->Err_0 is InvalidOperation
                        && next.held()->Err_0.detail() == pending_transpose_text(
                        "multiply element-wise"@,
                    )
                } else {
                    call_ensures(Tensor::<B>::multiply, (&t, other), next.held())
                },
                Err(_) => next == self,
            },
    {
        match self.tensor {
            Ok(t) => {
                let product = if self.transposed {
                    Err(pending_transpose("multiply element-wise"))
                } else {
                    t.multiply(other)
                };
                TensorChain { tensor: product, transposed: false }
            },
            Err(e) => TensorChain { tensor: Err(e), transposed: self.transposed },
        }
    }

    /// Multiplies every element of the held tensor by `scalar`. A mark
    /// stays: scaling and transposing can be done in either order.
    pub fn scalar_multiply(self, scalar: B::Elem) -> (next: Self)
        ensures
            match self.held() {
                Ok(t) => next.marked() == self.marked() && call_ensures(
                    Tensor::<B>::scalar_multiply,
                    (&t, scalar),
                    next.held(),
                ),
                Err(_) => next == self,
            },
    {
        match self.tensor {
            Ok(t) => TensorChain { tensor: t.scalar_multiply(scalar), transposed: self.transposed },
            Err(e) => TensorChain { tensor: Err(e), transposed: self.transposed },
        }
    }

    /// Ends the chain: the held tensor, or the first failure. A tensor that
    /// is still marked as transposed cannot be handed out, since no
    /// transposed copy is ever made.
    pub fn finish(self) -> (r: Result<Tensor<B>, FerroFlowError>)
        ensures
            match self.held() {
                Ok(t) => if self.marked() {
                    r is Err && r->Err_0 is InvalidOperation && r->Err_0.detail()
                        == pending_transpose_text("finish with"@)
                } else {
                    r == self.held()
                },
                Err(_) => r == self.held(),
            },
    {
        match self.tensor {
            Ok(t) => if self.transposed {
                Err(pending_transpose("finish with"))
            } else {
                Ok(t)
            },
            Err(e) => Err(e),
        }
    }
}

} // verus!
