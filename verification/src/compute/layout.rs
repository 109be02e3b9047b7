//! Arithmetic of row-major matrices and of batches laid out one block after
//! the other.

use vstd::arithmetic::div_mod::{
    lemma_fundamental_div_mod, lemma_fundamental_div_mod_converse, lemma_mod_bound,
};
use vstd::prelude::*;

verus! {

/// The place of a cell in a row-major `rows x cols` matrix lies inside the
/// matrix, and gives the cell back.
pub proof fn lemma_place_of_cell(row: int, col: int, rows: int, cols: int)
    requires
        0 <= row < rows,
        0 <= col < cols,
    ensures
        0 <= row * cols,
        0 <= row * cols + col < rows * cols,
        rows * cols == cols * rows,
        (row * cols + col) / cols == row,
        (row * cols + col) % cols == col,
{
    assert(0 <= row * cols && 0 <= row * cols + col < rows * cols && rows * cols == cols * rows)
        by (nonlinear_arith)
        requires
            0 <= row < rows,
            0 <= col < cols,
    ;
    lemma_fundamental_div_mod_converse(row * cols + col, cols, row, col);
}

/// Every place in a row-major `rows x cols` matrix is the place of one
/// cell.
pub proof fn lemma_cell_of_place(at: int, rows: int, cols: int)
    requires
        0 <= at < rows * cols,
        0 <= rows,
        0 <= cols,
    ensures
        0 < cols,
        0 <= at / cols < rows,
        0 <= at % cols < cols,
        at == (at / cols) * cols + at % cols,
{
    assert(cols > 0) by (nonlinear_arith)
        requires
            0 <= at < rows * cols,
            0 <= rows,
            0 <= cols,
    ;
    lemma_fundamental_div_mod(at, cols);
    lemma_mod_bound(at, cols);
    let q = at / cols;
    let r = at % cols;
    assert(0 <= q < rows) by (nonlinear_arith)
        requires
            at == cols * q + r,
            0 <= r < cols,
            0 <= at < rows * cols,
    ;
    assert(cols * q == q * cols) by (nonlinear_arith);
}

/// The part of pair number `pair` in a batch of blocks lies inside the
/// batch, and the next part starts where it ends.
pub proof fn lemma_part_of_batch(pair: int, batch: int, block: int)
    by (nonlinear_arith)
    requires
        0 <= pair < batch,
        0 <= block,
    ensures
        0 <= pair * block,
        pair * block + block == (pair + 1) * block,
        (pair + 1) * block <= batch * block,
        block <= batch * block,
{
}

} // verus!
