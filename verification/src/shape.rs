//! Index bookkeeping around the reconstruction: the shape of the model
//! matrix read row by row, and the order in which the entries of the
//! reconstructed vector become image pixels.

use vstd::prelude::*;
use vstd::arithmetic::div_mod::lemma_fundamental_div_mod_converse;

verus! {

/// Why the rows read from a matrix file do not form a matrix.
#[derive(Clone, Copy, Debug, PartialEq, Eq)]
pub enum MatrixShapeError {
    /// The file holds no row.
    EmptyFile,
    /// The first row holds no value.
    EmptyRow,
    /// Some row holds a different number of values than the first.
    RaggedRows,
}

/// Rows and columns of a matrix.
#[derive(Clone, Copy, Debug, PartialEq, Eq)]
pub struct MatrixShape {
    pub rows: usize,
    pub cols: usize,
}

/// All rows hold as many values as the first.
pub open spec fn rows_uniform(row_lengths: Seq<usize>) -> bool {
    forall|i: int| 0 <= i < row_lengths.len() ==> #[trigger] row_lengths[i] == row_lengths[0]
}

/// What the lengths of the rows read from a matrix file make of it.
pub open spec fn matrix_shape_of(row_lengths: Seq<usize>) -> Result<MatrixShape, MatrixShapeError> {
    if row_lengths.len() == 0 {
        Err(MatrixShapeError::EmptyFile)
    } else if row_lengths[0] == 0 {
        Err(MatrixShapeError::EmptyRow)
    } else if !rows_uniform(row_lengths) {
        Err(MatrixShapeError::RaggedRows)
    } else {
        Ok(MatrixShape { rows: row_lengths.len() as usize, cols: row_lengths[0] })
    }
}

/// Checks that the rows read from a matrix file, given by their lengths,
/// form a matrix, and returns its shape.
pub fn check_matrix_shape(row_lengths: &Vec<usize>) -> (r: Result<MatrixShape, MatrixShapeError>)
    ensures
        r == matrix_shape_of(row_lengths@),
        r matches Ok(shape) ==> {
            &&& shape.rows == row_lengths@.len()
            &&& shape.cols == row_lengths@[0]
            &&& shape.cols > 0
            &&& forall|i: int| 0 <= i < row_lengths@.len() ==> row_lengths@[i] == shape.cols
        },
        (row_lengths@.len() > 0 && row_lengths@[0] > 0 && exists|i: int|
            0 <= i < row_lengths@.len() && #[trigger] row_lengths@[i] != row_lengths@[0]) ==> r == Err::<
            MatrixShape,
            MatrixShapeError,
        >(MatrixShapeError::RaggedRows),
{
    proof {
        lemma_matrix_shape_law(row_lengths@);
    }
    if row_lengths.len() == 0 {
        return Err(MatrixShapeError::EmptyFile);
    }
    let cols = row_lengths[0];
    if cols == 0 {
        return Err(MatrixShapeError::EmptyRow);
    }
    let mut i: usize = 0;
    while i < row_lengths.len()
        invariant
            cols == row_lengths@[0],
            cols != 0,
            i <= row_lengths.len(),
            forall|j: int| 0 <= j < i ==> row_lengths@[j] == cols,
        decreases row_lengths.len() - i,
    {
        if row_lengths[i] != cols {
            assert(!rows_uniform(row_lengths@)) by {
                assert(row_lengths@[i as int] != row_lengths@[0]);
            }
            return Err(MatrixShapeError::RaggedRows);
        }
        i = i + 1;
    }
    Ok(MatrixShape { rows: row_lengths.len(), cols })
}

/// The rows form a matrix exactly when there is at least one, the first is
/// not empty and every row is as long as the first; the shape is then the
/// number of rows by that length. A file with no row, an empty first row,
/// or any row of another length is refused, for that reason.
pub proof fn lemma_matrix_shape_law(row_lengths: Seq<usize>)
    ensures
        matrix_shape_of(row_lengths) matches Ok(shape) ==> {
            &&& row_lengths.len() <= usize::MAX ==> shape.rows == row_lengths.len()
            &&& shape.cols == row_lengths[0]
            &&& shape.cols > 0
            &&& forall|i: int| 0 <= i < row_lengths.len() ==> row_lengths[i] == shape.cols
        },
        row_lengths.len() == 0 ==> matrix_shape_of(row_lengths) == Err::<MatrixShape, MatrixShapeError>(
            MatrixShapeError::EmptyFile,
        ),
        row_lengths.len() > 0 && row_lengths[0] == 0 ==> matrix_shape_of(row_lengths) == Err::<
            MatrixShape,
            MatrixShapeError,
        >(MatrixShapeError::EmptyRow),
        (row_lengths.len() > 0 && row_lengths[0] > 0 && exists|i: int|
            0 <= i < row_lengths.len() && #[trigger] row_lengths[i] != row_lengths[0]) ==> matrix_shape_of(row_lengths)
            == Err::<MatrixShape, MatrixShapeError>(MatrixShapeError::RaggedRows),
        (row_lengths.len() > 0 && row_lengths[0] > 0 && forall|i: int|
            0 <= i < row_lengths.len() ==> #[trigger] row_lengths[i] == row_lengths[0]) ==> matrix_shape_of(row_lengths)
            is Ok,
{
    if row_lengths.len() > 0 && row_lengths[0] > 0 {
        if exists|i: int| 0 <= i < row_lengths.len() && #[trigger] row_lengths[i] != row_lengths[0] {
            let i = choose|i: int| 0 <= i < row_lengths.len() && #[trigger] row_lengths[i] != row_lengths[0];
            assert(!rows_uniform(row_lengths)) by {
                assert(row_lengths[i] != row_lengths[0]);
            }
        }
    }
}

/// The image vector has another length than height times width.
#[derive(Clone, Copy, Debug, PartialEq, Eq)]
pub struct DimensionMismatch;

/// Index into the reconstructed vector of the `k`-th pixel of the image.
/// The vector holds the image column by column (column-major), and the
/// image is written top row first after turning it upside down: pixel `k`
/// lies in output row `k / width`, which is source row
/// `height - 1 - k / width`, and in column `k % width`.
pub open spec fn source_index(height: int, width: int, k: int) -> int {
    (k % width) * height + (height - 1 - k / width)
}

proof fn lemma_source_of_cell(height: int, width: int, out_row: int, col: int)
    requires
        height > 0,
        width > 0,
        0 <= out_row < height,
        0 <= col < width,
    ensures
        (out_row * width + col) / width == out_row,
        (out_row * width + col) % width == col,
        source_index(height, width, out_row * width + col) == col * height + (height - 1 - out_row),
        0 <= col * height + (height - 1 - out_row) < height * width,
{
    lemma_fundamental_div_mod_converse(out_row * width + col, width, out_row, col);
    assert(col * height <= (width - 1) * height) by (nonlinear_arith)
        requires
            col <= width - 1,
            height > 0,
    ;
    assert((width - 1) * height == height * width - height) by (nonlinear_arith);
    assert(col * height >= 0) by (nonlinear_arith)
        requires
            col >= 0,
            height > 0,
    ;
}

/// The order in which the entries of the reconstructed vector become the
/// pixels of the saved image, or `DimensionMismatch` when the vector does
/// not have `height * width` entries.
pub fn pixel_order(height: usize, width: usize, f_len: usize) -> (r: Result<Vec<usize>, DimensionMismatch>)
    requires
        height * width <= usize::MAX,
    ensures
        r is Err <==> height * width != f_len,
        r matches Ok(order) ==> order@.len() == height * width && forall|k: int|
            0 <= k < order@.len() ==> order@[k] == source_index(height as int, width as int, k),
{
    if height * width != f_len {
        return Err(DimensionMismatch);
    }
    let mut order: Vec<usize> = Vec::new();
    let mut row: usize = height;
    while row > 0
        invariant
            height * width <= usize::MAX,
            row <= height,
            order@.len() == (height - row) * width,
            forall|k: int|
                0 <= k < order@.len() ==> order@[k] == source_index(height as int, width as int, k),
        decreases row,
    {
        row = row - 1;
        let ghost out_row: int = height - 1 - row;
        assert(order@.len() == out_row * width) by (nonlinear_arith)
            requires
                order@.len() == (height - (row + 1)) * width,
                out_row == height - 1 - row,
        ;
        let mut col: usize = 0;
        while col < width
            invariant
                height * width <= usize::MAX,
                row < height,
                out_row == height - 1 - row,
                col <= width,
                order@.len() == out_row * width + col,
                forall|k: int|
                    0 <= k < order@.len() ==> order@[k] == source_index(height as int, width as int, k),
            decreases width - col,
        {
            proof {
                lemma_source_of_cell(height as int, width as int, out_row, col as int);
            }
            let index = col * height + row;
            order.push(index);
            col = col + 1;
        }
        assert(order@.len() == (height - row) * width) by (nonlinear_arith)
            requires
                order@.len() == out_row * width + width,
                out_row == height - 1 - row,
        ;
    }
    Ok(order)
}

/// Entry `i` of the vector is the source of some pixel of the image.
pub open spec fn lands_on_pixel(height: int, width: int, i: int) -> bool {
    exists|k: int| 0 <= k < height * width && #[trigger] source_index(height, width, k) == i
}

/// Every pixel of the image takes its value from a valid entry of the
/// vector, no two pixels from the same entry, and every entry lands on some
/// pixel: the pixel order is a permutation of the vector's indices.
pub proof fn lemma_pixel_order_is_permutation(height: int, width: int)
    requires
        height > 0,
        width > 0,
    ensures
        forall|k: int|
            0 <= k < height * width ==> 0 <= #[trigger] source_index(height, width, k) < height * width,
        forall|k1: int, k2: int|
            0 <= k1 < height * width && 0 <= k2 < height * width && k1 != k2 ==> #[trigger] source_index(
                height,
                width,
                k1,
            ) != #[trigger] source_index(height, width, k2),
        forall|i: int| 0 <= i < height * width ==> #[trigger] lands_on_pixel(height, width, i),
{
    assert forall|k: int| 0 <= k < height * width implies 0 <= #[trigger] source_index(height, width, k) < height * width by {
        lemma_cell_of_index(height, width, k);
    }
    assert forall|k1: int, k2: int|
        0 <= k1 < height * width && 0 <= k2 < height * width && k1 != k2 implies #[trigger] source_index(
            height,
            width,
            k1,
        ) != #[trigger] source_index(height, width, k2) by {
        lemma_cell_of_index(height, width, k1);
        lemma_cell_of_index(height, width, k2);
        if source_index(height, width, k1) == source_index(height, width, k2) {
            let x = source_index(height, width, k1);
            lemma_fundamental_div_mod_converse(x, height, k1 % width, height - 1 - k1 / width);
            lemma_fundamental_div_mod_converse(x, height, k2 % width, height - 1 - k2 / width);
            vstd::arithmetic::div_mod::lemma_fundamental_div_mod(k1, width);
            vstd::arithmetic::div_mod::lemma_fundamental_div_mod(k2, width);
        }
    }
    assert forall|i: int| 0 <= i < height * width implies #[trigger] lands_on_pixel(height, width, i) by {
        let col = i / height;
        let out_row = height - 1 - i % height;
        vstd::arithmetic::div_mod::lemma_fundamental_div_mod(i, height);
        vstd::arithmetic::div_mod::lemma_mod_pos_bound(i, height);
        vstd::arithmetic::div_mod::lemma_div_pos_is_pos(i, height);
        assert(col < width) by (nonlinear_arith)
            requires
                i == height * col + i % height,
                i % height >= 0,
                i < height * width,
                height > 0,
        ;
        lemma_source_of_cell(height, width, out_row, col);
        let k = out_row * width + col;
        assert(0 <= k < height * width) by (nonlinear_arith)
            requires
                0 <= out_row < height,
                0 <= col < width,
                k == out_row * width + col,
        ;
        assert(source_index(height, width, k) == i);
    }
}

proof fn lemma_cell_of_index(height: int, width: int, k: int)
    requires
        height > 0,
        width > 0,
        0 <= k < height * width,
    ensures
        0 <= k / width < height,
        0 <= k % width < width,
        k == (k / width) * width + k % width,
        0 <= source_index(height, width, k) < height * width,
{
    vstd::arithmetic::div_mod::lemma_fundamental_div_mod(k, width);
    vstd::arithmetic::div_mod::lemma_mod_pos_bound(k, width);
    vstd::arithmetic::div_mod::lemma_div_pos_is_pos(k, width);
    let q = k / width;
    let m = k % width;
    assert(q < height) by (nonlinear_arith)
        requires
            k == width * q + m,
            m >= 0,
            k < height * width,
            width > 0,
    ;
    lemma_source_of_cell(height, width, q, m);
    assert(q * width + m == k) by (nonlinear_arith)
        requires
            k == width * q + m,
    ;
}

} // verus!
