//! Which matrix product two shapes call for, if any.

use super::shape::{dims_product, lemma_product_of_batch, lemma_product_of_matrix, Shape};
use crate::compute::{batched_matmul_result, checked_volume, matmul_result, Element};
use crate::error::FerroFlowError;
use crate::text::{dims_text, push_dims};
use vstd::prelude::*;
use vstd::string::StringExecFns;

verus! {

/// How the product of two tensors is carried out: as one product of an
/// effective `m x k` operand and an effective `k x n` operand, or as a batch
/// of such products.
#[derive(Clone, Copy, Debug, PartialEq, Eq)]
pub struct MatmulRoute {
    /// The number of independent products, for batched operands.
    pub batch: Option<usize>,
    /// Rows of the result.
    pub m: usize,
    /// Columns of the result.
    pub n: usize,
    /// The inner dimension the operands share.
    pub k: usize,
}

/// Why two shapes cannot be multiplied.
pub enum Refusal {
    /// An operand has fewer than two dimensions.
    RankTooLow,
    /// An operand has more than three dimensions.
    NotAMatrix,
    /// The columns of the left operand are not the rows of the right one.
    InnerMismatch,
    /// One operand is batched and the other is not, or the batch counts
    /// differ.
    BatchMismatch,
    /// The result has more elements than a buffer can hold.
    TooLarge,
}

/// Rows and columns of an operand of rank 2 or 3 as the product sees them:
/// swapped where the operand is transposed.
pub open spec fn operand_dims(dims: Seq<usize>, transposed: bool) -> (usize, usize) {
    let rows = dims[dims.len() - 2];
    let cols = dims[dims.len() - 1];
    if transposed {
        (cols, rows)
    } else {
        (rows, cols)
    }
}

/// The report for operands whose inner dimensions differ. It names both
/// shapes.
pub open spec fn inner_mismatch_text(lhs: Seq<usize>, rhs: Seq<usize>) -> Seq<char> {
    "Incompatible dimensions for matmul: "@ + dims_text(lhs) + " and "@ + dims_text(rhs)
}

/// The product that two shapes call for, or why there is none.
///
/// Both operands need two or three dimensions. Their inner dimensions, taken
/// after transposition, must agree. Either both are plain matrices, or both
/// are batches of the same count: a batch is never multiplied with a plain
/// matrix.
pub open spec fn route(lhs: Seq<usize>, rhs: Seq<usize>, transpose_a: bool, transpose_b: bool)
    -> Result<MatmulRoute, Refusal> {
    if lhs.len() < 2 || rhs.len() < 2 {
        Err(Refusal::RankTooLow)
    } else if lhs.len() > 3 || rhs.len() > 3 {
        Err(Refusal::NotAMatrix)
    } else {
        let (m, k) = operand_dims(lhs, transpose_a);
        let (k2, n) = operand_dims(rhs, transpose_b);
        if k != k2 {
            Err(Refusal::InnerMismatch)
        } else if lhs.len() != rhs.len() || (lhs.len() == 3 && lhs[0] != rhs[0]) {
            Err(Refusal::BatchMismatch)
        } else {
            let found = MatmulRoute {
                batch: if lhs.len() == 3 {
                    Some(lhs[0])
                } else {
                    None
                },
                m,
                n,
                k,
            };
            if found.count() * (m * n) > usize::MAX {
                Err(Refusal::TooLarge)
            } else {
                Ok(found)
            }
        }
    }
}

impl Refusal {
    /// Whether `e` is the error under which this refusal is reported for the
    /// given operand shapes.
    pub open spec fn reported_as(self, e: FerroFlowError, lhs: Seq<usize>, rhs: Seq<usize>) -> bool {
        match self {
            Refusal::RankTooLow => e is ShapeMismatch && e.detail()
                == "Matmul requires at least 2D tensors"@,
            Refusal::NotAMatrix => e is InvalidOperation && e.detail()
                == "Invalid shape for matrix operation"@,
            Refusal::InnerMismatch => e is ShapeMismatch && e.detail() == inner_mismatch_text(
                lhs,
                rhs,
            ),
            Refusal::BatchMismatch => e is ShapeMismatch && e.detail()
                == "Batch sizes must match for batched matmul"@,
            Refusal::TooLarge => e is InvalidOperation && e.detail()
                == "Matmul result is too large"@,
        }
    }
}

impl MatmulRoute {
    /// The number of products: the batch count, or 1 for plain matrices.
    pub open spec fn count(self) -> usize {
        match self.batch {
            Some(batch) => batch,
            None => 1,
        }
    }

    /// The dimensions of the result: `[m, n]`, behind the batch count where
    /// there is one.
    pub open spec fn result_dims(self) -> Seq<usize> {
        match self.batch {
            Some(batch) => seq![batch, self.m, self.n],
            None => seq![self.m, self.n],
        }
    }

    /// The elements of the result for operands `a` and `b`.
    pub open spec fn result<T: Element>(
        self,
        a: Seq<T>,
        b: Seq<T>,
        transpose_a: bool,
        transpose_b: bool,
    ) -> Seq<T> {
        match self.batch {
            Some(batch) => batched_matmul_result(
                a,
                b,
                batch as nat,
                self.m as nat,
                self.n as nat,
                self.k as nat,
                transpose_a,
                transpose_b,
            ),
            None => matmul_result(
                a,
                b,
                self.m as nat,
                self.n as nat,
                self.k as nat,
                transpose_a,
                transpose_b,
            ),
        }
    }

    /// The shape of the result.
    pub fn result_shape(&self) -> (s: Shape)
        ensures
            s@ == self.result_dims(),
    {
        match self.batch {
            Some(batch) => Shape::new_batched(batch, self.m, self.n),
            None => {
                let s = Shape::new(vec![self.m, self.n]);
                assert(s@ =~= seq![self.m, self.n]);
                s
            },
        }
    }
}

/// Operands that a route was found for hold exactly what its products read,
/// and the result has as many elements as its shape.
pub proof fn lemma_route_sizes(
    lhs: Seq<usize>,
    rhs: Seq<usize>,
    transpose_a: bool,
    transpose_b: bool,
)
    requires
        route(lhs, rhs, transpose_a, transpose_b) is Ok,
    ensures
        ({
            let found = route(lhs, rhs, transpose_a, transpose_b)->Ok_0;
            &&& dims_product(lhs) == found.count() * (found.m * found.k)
            &&& dims_product(rhs) == found.count() * (found.k * found.n)
            &&& dims_product(found.result_dims()) == found.count() * (found.m * found.n)
            &&& found.count() * (found.m * found.n) <= usize::MAX
        }),
{
    let found = route(lhs, rhs, transpose_a, transpose_b)->Ok_0;
    let (m, n, k) = (found.m, found.n, found.k);
    assert(m * k == k * m && k * n == n * k) by (nonlinear_arith);
    if lhs.len() == 3 {
        assert(lhs =~= seq![lhs[0], lhs[1], lhs[2]]);
        assert(rhs =~= seq![rhs[0], rhs[1], rhs[2]]);
        lemma_product_of_batch(lhs[0], lhs[1], lhs[2]);
        lemma_product_of_batch(rhs[0], rhs[1], rhs[2]);
        lemma_product_of_batch(lhs[0], m, n);
    } else {
        assert(lhs =~= seq![lhs[0], lhs[1]]);
        assert(rhs =~= seq![rhs[0], rhs[1]]);
        lemma_product_of_matrix(lhs[0], lhs[1]);
        lemma_product_of_matrix(rhs[0], rhs[1]);
        lemma_product_of_matrix(m, n);
        assert(1 * (m * k) == m * k && 1 * (k * n) == k * n && 1 * (m * n) == m * n);
    }
}

fn inner_mismatch(lhs: &Shape, rhs: &Shape) -> (e: FerroFlowError)
    ensures
        e is ShapeMismatch,
        e.detail() == inner_mismatch_text(lhs@, rhs@),
{
    let mut text = String::from_str("Incompatible dimensions for matmul: ");
    push_dims(&mut text, lhs.dims());
    text.append(" and ");
    push_dims(&mut text, rhs.dims());
    assert(text@ =~= inner_mismatch_text(lhs@, rhs@));
    FerroFlowError::ShapeMismatch(text)
}

/// Decides how two shapes are multiplied, with the left operand transposed
/// if `transpose_a` and the right one if `transpose_b`.
pub fn plan_matmul(lhs: &Shape, rhs: &Shape, transpose_a: bool, transpose_b: bool) -> (r: Result<
    MatmulRoute,
    FerroFlowError,
>)
    ensures
        match route(lhs@, rhs@, transpose_a, transpose_b) {
            Ok(found) => r == Ok::<MatmulRoute, FerroFlowError>(found),
            Err(why) => r is Err && why.reported_as(r->Err_0, lhs@, rhs@),
        },
{
    if lhs.rank() < 2 || rhs.rank() < 2 {
        return Err(
            FerroFlowError::ShapeMismatch(String::from_str("Matmul requires at least 2D tensors")),
        );
    }
    let (rows_a, cols_a) = match lhs.matrix_dims() {
        Ok(dims) => dims,
        Err(e) => {
            return Err(e);
        },
    };
    let (rows_b, cols_b) = match rhs.matrix_dims() {
        Ok(dims) => dims,
        Err(e) => {
            return Err(e);
        },
    };
    let (m, k) = if transpose_a {
        (cols_a, rows_a)
    } else {
        (rows_a, cols_a)
    };
    let (k2, n) = if transpose_b {
        (cols_b, rows_b)
    } else {
        (rows_b, cols_b)
    };
    if k != k2 {
        return Err(inner_mismatch(lhs, rhs));
    }
    let batch = match (lhs.batch_size(), rhs.batch_size()) {
        (Some(b1), Some(b2)) if b1 == b2 => Some(b1),
        (None, None) => None,
        _ => {
            return Err(
                FerroFlowError::ShapeMismatch(
                    String::from_str("Batch sizes must match for batched matmul"),
                ),
            );
        },
    };
    let count = match batch {
        Some(batch) => batch,
        None => 1,
    };
    if checked_volume(count, m, n).is_none() {
        return Err(
            FerroFlowError::InvalidOperation(String::from_str("Matmul result is too large")),
        );
    }
    Ok(MatmulRoute { batch, m, n, k })
}

} // verus!
