use crate::error::FerroFlowError;
use vstd::prelude::*;
use vstd::std_specs::cmp::PartialEqSpecImpl;
use vstd::string::StringExecFns;

verus! {

/// The product of a sequence of dimensions; the empty product is 1.
pub open spec fn dims_product(dims: Seq<usize>) -> nat
    decreases dims.len(),
{
    if dims.len() == 0 {
        1
    } else {
        dims_product(dims.drop_last()) * (dims.last() as nat)
    }
}

/// A dimension of 0 anywhere makes the whole product 0.
pub proof fn lemma_product_with_zero(dims: Seq<usize>, at: int)
    requires
        0 <= at < dims.len(),
        dims[at] == 0,
    ensures
        dims_product(dims) == 0,
    decreases dims.len(),
{
    if at < dims.len() - 1 {
        lemma_product_with_zero(dims.drop_last(), at);
        assert(0 * (dims.last() as nat) == 0);
    }
}

/// Extending a prefix by the next dimension multiplies its product by it.
pub proof fn lemma_product_step(dims: Seq<usize>, upto: int)
    requires
        0 <= upto < dims.len(),
    ensures
        dims_product(dims.subrange(0, upto + 1)) == dims_product(dims.subrange(0, upto)) * (
        dims[upto] as nat),
{
    let longer = dims.subrange(0, upto + 1);
    assert(longer.drop_last() =~= dims.subrange(0, upto));
    assert(longer.last() == dims[upto]);
}

/// With no dimension 0, the product of a prefix is at least 1 and at most
/// the product of the whole.
pub proof fn lemma_product_of_prefix(dims: Seq<usize>, upto: int)
    requires
        0 <= upto <= dims.len(),
        forall|i: int| 0 <= i < dims.len() ==> dims[i] >= 1,
    ensures
        1 <= dims_product(dims.subrange(0, upto)) <= dims_product(dims),
    decreases dims.len() - upto,
{
    if upto == dims.len() {
        assert(dims.subrange(0, upto) =~= dims);
        lemma_product_at_least_one(dims);
    } else {
        lemma_product_of_prefix(dims, upto + 1);
        lemma_product_step(dims, upto);
        lemma_product_at_least_one(dims.subrange(0, upto));
        let p = dims_product(dims.subrange(0, upto));
        let d = dims[upto] as nat;
        assert(p <= p * d) by (nonlinear_arith)
            requires
                d >= 1,
        ;
    }
}

/// With no dimension 0, the product is at least 1.
pub proof fn lemma_product_at_least_one(dims: Seq<usize>)
    requires
        forall|i: int| 0 <= i < dims.len() ==> dims[i] >= 1,
    ensures
        dims_product(dims) >= 1,
    decreases dims.len(),
{
    if dims.len() > 0 {
        lemma_product_at_least_one(dims.drop_last());
        let p = dims_product(dims.drop_last());
        let d = dims.last() as nat;
        assert(p * d >= 1) by (nonlinear_arith)
            requires
                p >= 1,
                d >= 1,
        ;
    }
}

/// A matrix of `rows` by `cols` has `rows * cols` elements.
pub proof fn lemma_product_of_matrix(rows: usize, cols: usize)
    ensures
        dims_product(seq![rows, cols]) == rows * cols,
{
    let dims = seq![rows, cols];
    let first = dims.drop_last();
    assert(first.drop_last() =~= Seq::<usize>::empty());
    assert(dims_product(first.drop_last()) == 1);
    assert(dims_product(first) == 1 * (rows as nat));
    assert(dims_product(dims) == dims_product(first) * (cols as nat));
    assert(1 * (rows as nat) * (cols as nat) == rows * cols) by (nonlinear_arith);
}

/// A batch of `batch` matrices of `rows` by `cols` has
/// `batch * (rows * cols)` elements.
pub proof fn lemma_product_of_batch(batch: usize, rows: usize, cols: usize)
    ensures
        dims_product(seq![batch, rows, cols]) == batch * (rows * cols),
{
    let dims = seq![batch, rows, cols];
    assert(dims.drop_last() =~= seq![batch, rows]);
    lemma_product_of_matrix(batch, rows);
    assert(dims_product(dims) == dims_product(dims.drop_last()) * (cols as nat));
    assert((batch * rows) * cols == batch * (rows * cols)) by (nonlinear_arith);
}

/// The dimensions of a tensor, outermost first.
///
/// Two dimensions describe a plain matrix. Three or more describe a batch:
/// the first dimension counts the matrices, the next two are their rows and
/// columns.
#[derive(Debug)]
pub struct Shape(Vec<usize>);

impl View for Shape {
    type V = Seq<usize>;

    closed spec fn view(&self) -> Seq<usize> {
        self.0@
    }
}

impl Shape {
    /// The number of elements a tensor of this shape holds.
    pub open spec fn spec_size(self) -> nat {
        dims_product(self@)
    }

    /// The batch count of a shape of rank 3 or more.
    pub open spec fn spec_batch_size(self) -> Option<usize> {
        if self@.len() >= 3 {
            Some(self@[0])
        } else {
            None
        }
    }

    /// Rows and columns of the matrices of a shape of rank 2 or 3.
    pub open spec fn spec_matrix_dims(self) -> Option<(usize, usize)> {
        if self@.len() == 2 {
            Some((self@[0], self@[1]))
        } else if self@.len() == 3 {
            Some((self@[1], self@[2]))
        } else {
            None
        }
    }

    /// Creates a shape from its dimensions, outermost first.
    pub fn new(dims: Vec<usize>) -> (s: Shape)
        ensures
            s@ == dims@,
    {
        Shape(dims)
    }

    /// Creates the shape of a batch of `batch` matrices of `rows` by `cols`.
    pub fn new_batched(batch: usize, rows: usize, cols: usize) -> (s: Shape)
        ensures
            s@ == seq![batch, rows, cols],
    {
        let mut dims: Vec<usize> = Vec::new();
        dims.push(batch);
        dims.push(rows);
        dims.push(cols);
        assert(dims@ =~= seq![batch, rows, cols]);
        Shape(dims)
    }

    /// The dimensions, outermost first.
    pub fn dims(&self) -> (d: &[usize])
        ensures
            d@ == self@,
    {
        self.0.as_slice()
    }

    /// The number of dimensions.
    pub fn rank(&self) -> (n: usize)
        ensures
            n == self@.len(),
    {
        self.0.len()
    }

    /// The product of the dimensions, or `None` where it does not fit the
    /// machine word.
    pub fn checked_size(&self) -> (r: Option<usize>)
        ensures
            match r {
                Some(n) => n == self.spec_size(),
                None => self.spec_size() > usize::MAX,
            },
    {
        let n = self.0.len();
        let mut i: usize = 0;
        while i < n
            invariant
                n == self.0@.len(),
                i <= n,
                forall|j: int| 0 <= j < i ==> self.0@[j] >= 1,
            decreases n - i,
        {
            if self.0[i] == 0 {
                proof {
                    lemma_product_with_zero(self.0@, i as int);
                }
                return Some(0);
            }
            i += 1;
        }
        let mut acc: usize = 1;
        let mut i: usize = 0;
        assert(self.0@.subrange(0, 0) =~= Seq::<usize>::empty());
        while i < n
            invariant
                n == self.0@.len(),
                i <= n,
                forall|j: int| 0 <= j < n ==> self.0@[j] >= 1,
                acc == dims_product(self.0@.subrange(0, i as int)),
            decreases n - i,
        {
            proof {
                lemma_product_step(self.0@, i as int);
                lemma_product_of_prefix(self.0@, i + 1);
            }
            match acc.checked_mul(self.0[i]) {
                Some(next) => {
                    acc = next;
                },
                None => {
                    return None;
                },
            }
            i += 1;
        }
        assert(self.0@.subrange(0, n as int) =~= self.0@);
        Some(acc)
    }

    /// The number of elements a tensor of this shape holds: the product of
    /// the dimensions, which is 0 as soon as one dimension is 0.
    pub fn size(&self) -> (n: usize)
        requires
            self.spec_size() <= usize::MAX,
        ensures
            n == self.spec_size(),
    {
        let n = self.checked_size();
        n.unwrap()
    }

    /// Returns the batch size if this is a batched matrix (first dimension).
    pub fn batch_size(&self) -> (r: Option<usize>)
        ensures
            r == self.spec_batch_size(),
    {
        if self.0.len() >= 3 {
            Some(self.0[0])
        } else {
            None
        }
    }

    /// Returns the matrix dimensions (rows, columns), ignoring the batch.
    /// A shape of any rank but 2 or 3 describes no matrix.
    pub fn matrix_dims(&self) -> (r: Result<(usize, usize), FerroFlowError>)
        ensures
            match self.spec_matrix_dims() {
                Some(rc) => r == Ok::<(usize, usize), FerroFlowError>(rc),
                None => r is Err && r->Err_0 is InvalidOperation && r->Err_0.detail()
                    == "Invalid shape for matrix operation"@,
            },
    {
        if self.0.len() == 2 {
            Ok((self.0[0], self.0[1]))
        } else if self.0.len() == 3 {
            Ok((self.0[1], self.0[2]))
        } else {
            Err(
                FerroFlowError::InvalidOperation(
                    String::from_str("Invalid shape for matrix operation"),
                ),
            )
        }
    }
}

impl Clone for Shape {
    fn clone(&self) -> (s: Shape)
        ensures
            s@ == self@,
    {
        Shape(self.0.clone())
    }
}

impl PartialEq for Shape {
    /// Two shapes are equal when they have the same rank and the same
    /// dimensions, position by position.
    fn eq(&self, other: &Shape) -> (b: bool) {
        if self.0.len() != other.0.len() {
            return false;
        }
        let n = self.0.len();
        let mut i: usize = 0;
        while i < n
            invariant
                n == self.0@.len(),
                n == other.0@.len(),
                i <= n,
                forall|j: int| 0 <= j < i ==> self.0@[j] == other.0@[j],
            decreases n - i,
        {
            if self.0[i] != other.0[i] {
                return false;
            }
            i += 1;
        }
        assert(self.0@ =~= other.0@);
        true
    }
}

impl PartialEqSpecImpl for Shape {
    open spec fn obeys_eq_spec() -> bool {
        true
    }

    open spec fn eq_spec(&self, other: &Shape) -> bool {
        self@ == other@
    }
}

} // verus!
