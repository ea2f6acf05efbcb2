//! The matrix container: construction, element access, rows, columns,
//! transposition and the two row-major cursors.
pub mod checked;
pub mod func;
pub mod func_apply;
pub mod matrix_add;
pub mod matrix_div;
pub mod matrix_iter_mut;
pub mod matrix_iterator;
pub mod matrix_mul;
pub mod matrix_neg;
pub mod matrix_rem;
pub mod matrix_scalar_mul;
pub mod matrix_sub;
pub mod scalar;

use crate::grid::{lemma_flat_index, Grid};
use matrix_iter_mut::MatrixIteratorMut;
use matrix_iterator::MatrixIterator;
use vstd::prelude::*;
use vstd::std_specs::cmp::{PartialEqSpec, PartialEqSpecImpl};

verus! {

/// A dense matrix over any scalar type that is `Copy` and `PartialEq`.
///
/// The cells are stored row after row; the cell in row `i` and column `j`
/// sits at flat index `i * n_cols + j`. Two matrices are equal when their
/// shapes and their cells are equal.
#[derive(Debug)]
pub struct Matrix<T: Copy + PartialEq> {
    data: Vec<T>,
    n_rows: usize,
    n_cols: usize,
}

impl<T: Copy + PartialEq> View for Matrix<T> {
    type V = Grid<T>;

    closed spec fn view(&self) -> Grid<T> {
        Grid { n_rows: self.n_rows as nat, n_cols: self.n_cols as nat, cells: self.data@ }
    }
}

impl<T: Copy + PartialEq> Clone for Matrix<T> {
    /// A matrix of the same shape with copies of the cells.
    fn clone(&self) -> (m: Matrix<T>)
        ensures
            m@ == self@,
    {
        let n: usize = self.data.len();
        let mut data: Vec<T> = Vec::new();
        let mut p: usize = 0;
        while p < n
            invariant
                n == self.data@.len(),
                p <= n,
                data@ == self.data@.subrange(0, p as int),
            decreases n - p,
        {
            data.push(self.data[p]);
            proof {
                assert(data@ =~= self.data@.subrange(0, p + 1));
            }
            p += 1;
        }
        proof {
            assert(data@ =~= self.data@);
        }
        Matrix { data, n_rows: self.n_rows, n_cols: self.n_cols }
    }
}

impl<T: Copy + PartialEq> PartialEq for Matrix<T> {
    fn eq(&self, other: &Matrix<T>) -> (r: bool) {
        self.data == other.data && self.n_rows == other.n_rows && self.n_cols == other.n_cols
    }
}

impl<T: Copy + PartialEq> PartialEqSpecImpl for Matrix<T> {
    open spec fn obeys_eq_spec() -> bool {
        T::obeys_eq_spec()
    }

    /// The shapes are equal and so are the cells, one by one.
    open spec fn eq_spec(&self, other: &Matrix<T>) -> bool {
        &&& self@.n_rows == other@.n_rows
        &&& self@.n_cols == other@.n_cols
        &&& self@.cells.len() == other@.cells.len()
        &&& forall|p: int|
            0 <= p < self@.cells.len() ==> #[trigger] self@.cells[p].eq_spec(&other@.cells[p])
    }
}

/// The rows all have the length of the first one.
pub open spec fn rectangular<T>(rows: Seq<Vec<T>>) -> bool {
    forall|i: int| 0 <= i < rows.len() ==> (#[trigger] rows[i])@.len() == rows[0]@.len()
}

/// The grid that holds the given rows, one below the other.
pub open spec fn grid_of_rows<T>(rows: Seq<Vec<T>>) -> Grid<T> {
    let n_cols = rows[0]@.len();
    Grid {
        n_rows: rows.len(),
        n_cols,
        cells: Seq::new(rows.len() * n_cols, |p: int| rows[p / (n_cols as int)]@[p % (n_cols as int)]),
    }
}

impl<T: Copy + PartialEq> Matrix<T> {
    /// The storage invariant: the number of cells is `n_rows * n_cols`.
    /// Every constructor establishes it and every operation keeps it.
    pub open spec fn wf(&self) -> bool {
        self@.wf()
    }

    /// Creates a matrix from its rows.
    ///
    /// There must be at least one row, since the first row gives the number
    /// of columns, and all rows must have that length. [`Matrix::try_new`]
    /// tests for both.
    pub fn new(v: Vec<Vec<T>>) -> (m: Matrix<T>)
        requires
            v@.len() > 0,
            rectangular(v@),
        ensures
            m.wf(),
            m@ == grid_of_rows(v@),
    {
        let n_rows: usize = v.len();
        let n_cols: usize = v[0].len();
        let mut data: Vec<T> = Vec::new();
        let mut i: usize = 0;
        while i < n_rows
            invariant
                n_rows == v@.len(),
                n_cols == v@[0]@.len(),
                rectangular(v@),
                i <= n_rows,
                data@.len() == i * n_cols,
                forall|p: int|
                    0 <= p < data@.len() ==> data@[p] == (#[trigger] grid_of_rows(v@).cells[p]),
            decreases n_rows - i,
        {
            let row: &Vec<T> = &v[i];
            let mut j: usize = 0;
            while j < n_cols
                invariant
                    n_rows == v@.len(),
                    n_cols == v@[0]@.len(),
                    i < n_rows,
                    row == v@[i as int],
                    row@.len() == n_cols,
                    j <= n_cols,
                    data@.len() == i * n_cols + j,
                    forall|p: int|
                        0 <= p < data@.len() ==> data@[p] == (#[trigger] grid_of_rows(
                            v@,
                        ).cells[p]),
                decreases n_cols - j,
            {
                proof {
                    lemma_flat_index(i as int, j as int, n_rows as int, n_cols as int);
                }
                data.push(row[j]);
                j += 1;
            }
            proof {
                assert((i + 1) * n_cols == i * n_cols + n_cols) by (nonlinear_arith);
            }
            i += 1;
        }
        proof {
            assert(data@ =~= grid_of_rows(v@).cells);
        }
        Matrix { data, n_rows, n_cols }
    }

    /// Creates a matrix from its cells in row-major order. There must be
    /// `n_rows * n_cols` of them; [`Matrix::try_create_from_data`] tests for
    /// that.
    pub fn create_from_data(data: Vec<T>, n_rows: usize, n_cols: usize) -> (m: Matrix<T>)
        requires
            data@.len() == n_rows * n_cols,
        ensures
            m.wf(),
            m@ == (Grid { n_rows: n_rows as nat, n_cols: n_cols as nat, cells: data@ }),
    {
        Matrix { data, n_rows, n_cols }
    }

    /// The matrix of the given shape whose cells all hold `value`.
    pub fn filled(value: T, n_rows: usize, n_cols: usize) -> (m: Matrix<T>)
        requires
            n_rows * n_cols <= usize::MAX,
        ensures
            m.wf(),
            m@ == Grid::filled(n_rows as nat, n_cols as nat, value),
    {
        let n: usize = n_rows * n_cols;
        let mut data: Vec<T> = Vec::new();
        let mut p: usize = 0;
        while p < n
            invariant
                p <= n,
                data@.len() == p,
                forall|q: int| 0 <= q < p ==> data@[q] == value,
            decreases n - p,
        {
            data.push(value);
            p += 1;
        }
        proof {
            assert(data@ =~= Grid::filled(n_rows as nat, n_cols as nat, value).cells);
        }
        Matrix { data, n_rows, n_cols }
    }

    /// The cell in row `i` and column `j`, which must lie inside the matrix;
    /// [`Matrix::try_get`] tests for that.
    pub fn get(&self, i: usize, j: usize) -> (e: T)
        requires
            self.wf(),
            i < self@.n_rows,
            j < self@.n_cols,
        ensures
            e == self@.at(i as int, j as int),
    {
        proof {
            lemma_flat_index(i as int, j as int, self.n_rows as int, self.n_cols as int);
            assert(self.data.len() == self.data@.len());
        }
        self.data[i * self.n_cols + j]
    }

    /// Row `i` as a matrix with one row.
    pub fn get_row(&self, i: usize) -> (r: Matrix<T>)
        requires
            self.wf(),
            i < self@.n_rows,
        ensures
            r.wf(),
            r@ == self@.row(i as int),
    {
        let n_cols: usize = self.n_cols;
        let mut row: Vec<T> = Vec::new();
        let mut j: usize = 0;
        while j < n_cols
            invariant
                self.wf(),
                n_cols == self.n_cols,
                i < self.n_rows,
                j <= n_cols,
                row@.len() == j,
                forall|k: int| 0 <= k < j ==> row@[k] == #[trigger] self@.at(i as int, k),
            decreases n_cols - j,
        {
            proof {
                lemma_flat_index(i as int, j as int, self.n_rows as int, self.n_cols as int);
                assert(self.data.len() == self.data@.len());
            }
            row.push(self.data[i * n_cols + j]);
            j += 1;
        }
        proof {
            assert(row@ =~= self@.row(i as int).cells);
        }
        Matrix::create_from_data(row, 1, n_cols)
    }

    /// Column `j` as a matrix with one column: the cells that the cursor
    /// yields for column `j`, in the order of their rows. A `j` beyond the
    /// last column gives a matrix without rows.
    pub fn get_col(&self, j: usize) -> (c: Matrix<T>)
        requires
            self.wf(),
        ensures
            c.wf(),
            j < self@.n_cols ==> c@ == self@.col(j as int),
            j >= self@.n_cols ==> c@ == (Grid { n_rows: 0, n_cols: 1, cells: Seq::<T>::empty() }),
    {
        let mut col: Vec<T> = Vec::new();
        let mut it = self.iter();
        let ghost w = self.n_cols as int;
        loop
            invariant
                self.wf(),
                w == self.n_cols,
                it.wf(),
                it.grid() == self@,
                j >= w ==> col@.len() == 0,
                j < w ==> (col@.len() - 1) * w + j < it.position() <= col@.len() * w + j,
                forall|k: int| 0 <= k < col@.len() ==> col@[k] == #[trigger] self@.at(k, j as int),
            ensures
                j >= w ==> col@.len() == 0,
                j < w ==> col@.len() == self.n_rows,
                forall|k: int| 0 <= k < col@.len() ==> col@[k] == #[trigger] self@.at(k, j as int),
            decreases self@.cells.len() - it.position(),
        {
            proof {
                it.lemma_position_bound();
            }
            let ghost len = col@.len() as int;
            match it.next() {
                Some((e, row, c)) => {
                    proof {
                        if j < w {
                            Self::lemma_column_step(len, j as int, row as int, c as int, w);
                        }
                    }
                    if c == j {
                        col.push(*e);
                    }
                },
                None => {
                    proof {
                        if j < w {
                            Self::lemma_column_end(len, j as int, self.n_rows as int, w);
                        }
                    }
                    break ;
                },
            }
        }
        proof {
            if j < self.n_cols {
                assert(col@ =~= self@.col(j as int).cells);
            } else {
                assert(col@ =~= Seq::<T>::empty());
            }
        }
        let n_rows: usize = col.len();
        Matrix::create_from_data(col, n_rows, 1)
    }

    /// When `len` cells of column `j` lie before the flat index
    /// `row * w + c`, a cell at that index in column `j` is the one of row
    /// `len`, and one in another column lies before the cell of column `j`
    /// in row `len`.
    proof fn lemma_column_step(len: int, j: int, row: int, c: int, w: int)
        requires
            0 <= len,
            0 <= row,
            0 <= j < w,
            0 <= c < w,
            (len - 1) * w + j < row * w + c <= len * w + j,
        ensures
            c == j ==> row == len && row * w + c + 1 <= (len + 1) * w + j,
            c != j ==> row * w + c + 1 <= len * w + j,
    {
        assert(c == j ==> row == len) by (nonlinear_arith)
            requires
                0 <= j < w,
                0 <= c < w,
                (len - 1) * w + j < row * w + c <= len * w + j,
        ;
        assert(row * w + c == len * w + j ==> c == j) by (nonlinear_arith)
            requires
                0 <= j < w,
                0 <= c < w,
        ;
        assert((len + 1) * w == len * w + w) by (nonlinear_arith);
    }

    /// When the cells of column `j` before the end of the grid are `len`,
    /// `len` is the number of rows.
    proof fn lemma_column_end(len: int, j: int, n: int, w: int)
        requires
            0 <= len,
            0 <= n,
            0 <= j < w,
            (len - 1) * w + j < n * w <= len * w + j,
        ensures
            len == n,
    {
        assert(len == n) by (nonlinear_arith)
            requires
                0 <= j < w,
                (len - 1) * w + j < n * w <= len * w + j,
        ;
    }

    /// A cursor over the cells, row after row, starting at the first cell.
    pub fn iter<'a>(&'a self) -> (it: MatrixIterator<'a, T>)
        requires
            self.wf(),
        ensures
            it.wf(),
            it.grid() == self@,
            it.position() == 0,
    {
        MatrixIterator::new(0, 0, 0, self.data.as_slice(), self.n_rows, self.n_cols)
    }

    /// A cursor that hands out the cells for writing, row after row,
    /// starting at the first cell.
    ///
    /// When the cursor and the references it has yielded are gone, the matrix
    /// has its old shape and holds what was written.
    pub fn iter_mut<'a>(&'a mut self) -> (it: MatrixIteratorMut<'a, T>)
        requires
            old(self).wf(),
        ensures
            it.wf(),
            it.row_idx == 0,
            it.col_idx == 0,
            it.n_rows == old(self)@.n_rows,
            it.n_cols == old(self)@.n_cols,
            it.data@ == old(self)@.cells,
            final(self)@ == (Grid {
                n_rows: old(self)@.n_rows,
                n_cols: old(self)@.n_cols,
                cells: final(it.data)@,
            }),
    {
        MatrixIteratorMut::new(0, 0, self.data.as_mut_slice(), self.n_rows, self.n_cols)
    }

    /// The transpose, as a new matrix.
    pub fn trans(&self) -> (t: Matrix<T>)
        requires
            self.wf(),
        ensures
            t.wf(),
            t@ == self@.transposed(),
    {
        let mut data: Vec<T> = Vec::new();
        let mut j: usize = 0;
        while j < self.n_cols
            invariant
                self.wf(),
                j <= self.n_cols,
                data@.len() == j * self.n_rows,
                forall|p: int|
                    0 <= p < data@.len() ==> data@[p] == (#[trigger] self@.transposed().cells[p]),
            decreases self.n_cols - j,
        {
            let mut i: usize = 0;
            while i < self.n_rows
                invariant
                    self.wf(),
                    j < self.n_cols,
                    i <= self.n_rows,
                    data@.len() == j * self.n_rows + i,
                    forall|p: int|
                        0 <= p < data@.len() ==> data@[p] == (#[trigger] self@.transposed().cells[p]),
                decreases self.n_rows - i,
            {
                proof {
                    lemma_flat_index(i as int, j as int, self.n_rows as int, self.n_cols as int);
                    lemma_flat_index(j as int, i as int, self.n_cols as int, self.n_rows as int);
                    assert(self.data.len() == self.data@.len());
                }
                data.push(self.data[j + i * self.n_cols]);
                i += 1;
            }
            proof {
                assert((j + 1) * self.n_rows == j * self.n_rows + self.n_rows) by (nonlinear_arith);
            }
            j += 1;
        }
        proof {
            assert(self.n_cols * self.n_rows == self.n_rows * self.n_cols) by (nonlinear_arith);
            assert(data@ =~= self@.transposed().cells);
        }
        Matrix::create_from_data(data, self.n_cols, self.n_rows)
    }
}

} // verus!
