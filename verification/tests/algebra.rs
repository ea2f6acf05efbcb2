use matrix_algebra::{
    Func, Matrix, MatrixError, MatrixIterator, MatrixIteratorMut, Scalar, Transform,
};

fn a() -> Matrix<i64> {
    Matrix::new(vec![vec![1, -2, 3], vec![4, 5, -6]])
}

fn b() -> Matrix<i64> {
    Matrix::new(vec![vec![7, 8, 9], vec![-1, 0, 2]])
}

fn c() -> Matrix<i64> {
    Matrix::new(vec![vec![2, 2, -3], vec![5, 1, 1]])
}

#[test]
fn addition_is_associative_and_commutative() {
    assert_eq!((&a() + &b()) + &c(), &a() + (&b() + &c()));
    assert_eq!(&a() + &b(), &b() + &a());
    assert_eq!(
        &a() + &b(),
        Matrix::create_from_data(vec![8, 6, 12, 3, 5, -4], 2, 3)
    );
}

#[test]
fn double_negation_gives_the_matrix_back() {
    assert_eq!(-(-a()), a());
    assert_eq!(-&a(), Matrix::create_from_data(vec![-1, 2, -3, -4, -5, 6], 2, 3));
}

#[test]
fn matrix_minus_itself_is_zero() {
    assert_eq!(&a() - &a(), Matrix::filled(0, 2, 3));
    assert_eq!(&a() - &a(), Matrix::create_from_data(vec![0; 6], 2, 3));
}

#[test]
fn transposing_twice_gives_the_matrix_back() {
    assert_eq!(a().trans().trans(), a());
    assert_eq!(
        a().trans(),
        Matrix::new(vec![vec![1, 4], vec![-2, 5], vec![3, -6]])
    );
}

#[test]
fn matrix_product_is_associative() {
    let x = a();
    let y = b().trans();
    let z = c();
    assert_eq!((&x * &y) * &z, &x * (&y * &z));
}

#[test]
fn matrix_product_exact_values() {
    let x = Matrix::new(vec![vec![1, 2], vec![3, 4]]);
    let y = Matrix::new(vec![vec![5, 6], vec![7, 8]]);
    assert_eq!(&x * &y, Matrix::new(vec![vec![19, 22], vec![43, 50]]));
    assert_eq!(x.product(&y), Matrix::new(vec![vec![19, 22], vec![43, 50]]));
    let row = Matrix::new(vec![vec![1, 2, 3]]);
    let col = Matrix::new(vec![vec![4], vec![5], vec![6]]);
    assert_eq!(&row * &col, Matrix::new(vec![vec![32]]));
    assert_eq!(
        &col * &row,
        Matrix::new(vec![vec![4, 8, 12], vec![5, 10, 15], vec![6, 12, 18]])
    );
}

#[test]
fn matrix_product_sums_in_the_order_of_the_inner_index() {
    let row = Matrix::new(vec![vec![1e100, 1.0, -1e100]]);
    let col = Matrix::new(vec![vec![1.0], vec![1.0], vec![1.0]]);
    assert_eq!(&row * &col, Matrix::new(vec![vec![0.0]]));
    let row = Matrix::new(vec![vec![1e100, -1e100, 1.0]]);
    assert_eq!(&row * &col, Matrix::new(vec![vec![1.0]]));
}

#[test]
fn matrix_product_over_no_inner_index_is_zero() {
    let x: Matrix<i32> = Matrix::create_from_data(vec![], 2, 0);
    let y: Matrix<i32> = Matrix::create_from_data(vec![], 0, 3);
    assert_eq!(x.product(&y), Matrix::create_from_data(vec![0; 6], 2, 3));
    assert_eq!(x.try_product(&y), Ok(Matrix::filled(0, 2, 3)));
}

#[test]
fn hadamard_product_is_commutative_and_associative() {
    assert_eq!(&a() % &b(), &b() % &a());
    assert_eq!((&a() % &b()) % &c(), &a() % (&b() % &c()));
    assert_eq!(
        &a() % &b(),
        Matrix::create_from_data(vec![7, -16, 27, -4, 0, -12], 2, 3)
    );
}

#[test]
fn cellwise_division_exact_values() {
    let x = Matrix::new(vec![vec![6, 8], vec![-9, 7]]);
    let y = Matrix::new(vec![vec![3, 2], vec![3, 2]]);
    assert_eq!(&x / &y, Matrix::new(vec![vec![2, 4], vec![-3, 3]]));
}

#[test]
fn scalar_product_distributes_over_addition() {
    assert_eq!(
        Scalar(3) * (&a() + &b()),
        Scalar(3) * &a() + Scalar(3) * &b()
    );
    assert_eq!(Scalar(3) * &a(), &a() * 3);
    assert_eq!(
        &a() * 3,
        Matrix::create_from_data(vec![3, -6, 9, 12, 15, -18], 2, 3)
    );
}

#[test]
fn scalar_times_scalar() {
    assert_eq!(Scalar(2) * Scalar(3), Scalar(6));
    assert_eq!(&Scalar(2) * Scalar(3), Scalar(6));
    assert_eq!(Scalar(2) * &Scalar(3), Scalar(6));
    assert_eq!(&Scalar(2) * &Scalar(3), Scalar(6));
}

#[test]
fn function_application_is_pointwise() {
    let m = a();
    let square_plus_one = Func::new(|x: i64| x * x + 1);
    let out = &square_plus_one % &m;
    for i in 0..2 {
        for j in 0..3 {
            assert_eq!(out.get(i, j), m.get(i, j) * m.get(i, j) + 1);
        }
    }
    assert_eq!(out, Matrix::create_from_data(vec![2, 5, 10, 17, 26, 37], 2, 3));
}

#[test]
fn row_holds_the_cells_of_that_row() {
    let m = a();
    for i in 0..2 {
        let row = m.get_row(i);
        assert_eq!(row, Matrix::new(vec![vec![m.get(i, 0), m.get(i, 1), m.get(i, 2)]]));
        for j in 0..3 {
            assert_eq!(row.get(0, j), m.get(i, j));
        }
    }
}

#[test]
fn column_holds_the_cells_of_that_column() {
    let m = a();
    assert_eq!(m.get_col(2), Matrix::new(vec![vec![3], vec![-6]]));
    assert_eq!(m.get_col(3), Matrix::create_from_data(vec![], 0, 1));
}

#[test]
fn get_reads_row_major() {
    let m = a();
    assert_eq!(m.get(0, 0), 1);
    assert_eq!(m.get(0, 2), 3);
    assert_eq!(m.get(1, 0), 4);
    assert_eq!(m.get(1, 2), -6);
}

#[test]
fn adding_a_matrix_to_itself_doubles_it() {
    assert_eq!(
        Matrix::new(vec![vec![0, 1], vec![2, 3]]) + Matrix::new(vec![vec![0, 1], vec![2, 3]]),
        Matrix::new(vec![vec![0, 2], vec![4, 6]])
    );
}

#[test]
fn identity_times_ones_is_ones() {
    assert_eq!(
        Matrix::new(vec![vec![1, 0], vec![0, 1]]) * Matrix::new(vec![vec![1, 1], vec![1, 1]]),
        Matrix::new(vec![vec![1, 1], vec![1, 1]])
    );
}

#[test]
fn transpose_swaps_rows_and_columns() {
    assert_eq!(
        Matrix::new(vec![vec![0, 1], vec![2, 3]]).trans(),
        Matrix::new(vec![vec![0, 2], vec![1, 3]])
    );
}

#[test]
fn scalar_on_either_side_gives_the_same_matrix() {
    let m = Matrix::new(vec![vec![0, 1], vec![2, 3]]);
    assert_eq!(Scalar(2) * &m, &m * 2);
    assert_eq!(&m * 2, Matrix::new(vec![vec![0, 2], vec![4, 6]]));
}

#[test]
fn doubling_function_doubles_every_cell() {
    let m = Matrix::new(vec![vec![0, 1], vec![2, 3]]);
    assert_eq!(
        Func::new(|x| 2 * x) % m,
        Matrix::new(vec![vec![0, 2], vec![4, 6]])
    );
}

#[test]
fn three_cells_do_not_fill_two_by_two() {
    assert_eq!(
        Matrix::try_create_from_data(vec![0, 1, 2], 2, 2),
        Err(MatrixError::DimensionMismatch)
    );
}

#[test]
fn try_create_from_data_accepts_fitting_cells() {
    assert_eq!(
        Matrix::try_create_from_data(vec![0, 1, 2, 3], 2, 2),
        Ok(Matrix::new(vec![vec![0, 1], vec![2, 3]]))
    );
    assert_eq!(
        Matrix::try_create_from_data(vec![0u8], usize::MAX, 2),
        Err(MatrixError::DimensionMismatch)
    );
}

#[test]
fn try_new_refuses_no_rows_and_ragged_rows() {
    assert_eq!(Matrix::<i32>::try_new(vec![]), Err(MatrixError::EmptyInput));
    assert_eq!(
        Matrix::try_new(vec![vec![1, 2], vec![3]]),
        Err(MatrixError::DimensionMismatch)
    );
    assert_eq!(
        Matrix::try_new(vec![vec![1, 2], vec![3, 4]]),
        Ok(Matrix::create_from_data(vec![1, 2, 3, 4], 2, 2))
    );
}

#[test]
fn try_get_refuses_indices_outside() {
    let m = a();
    assert_eq!(m.try_get(1, 2), Ok(-6));
    assert_eq!(m.try_get(2, 0), Err(MatrixError::OutOfBounds));
    assert_eq!(m.try_get(0, 3), Err(MatrixError::OutOfBounds));
}

#[test]
fn try_product_refuses_differing_inner_dimensions() {
    assert_eq!(a().try_product(&b()), Err(MatrixError::DimensionMismatch));
    assert_eq!(
        a().try_product(&b().trans()),
        Ok(Matrix::new(vec![vec![18, 5], vec![14, -16]]))
    );
}

#[test]
fn cursor_over_a_matrix_without_cells_yields_nothing() {
    let empty: Matrix<i32> = Matrix::create_from_data(vec![], 0, 0);
    assert!(empty.iter().next().is_none());
    let no_cols: Matrix<i32> = Matrix::create_from_data(vec![], 3, 0);
    let mut it = no_cols.iter();
    assert!(it.next().is_none());
    assert!(it.next().is_none());
    let mut no_rows: Matrix<i32> = Matrix::create_from_data(vec![], 0, 3);
    assert!(no_rows.iter().next().is_none());
    assert!(no_rows.iter_mut().next().is_none());
    let mut no_cols = no_cols;
    let mut it = no_cols.iter_mut();
    assert!(it.next().is_none());
    assert!(it.next().is_none());
}

#[test]
fn cursor_ends_after_the_last_cell() {
    let m = Matrix::new(vec![vec![1, 2, 3], vec![4, 5, 6]]);
    let mut it = m.iter();
    let mut seen: Vec<(i32, usize, usize)> = Vec::new();
    while let Some((e, row, col)) = it.next() {
        seen.push((*e, row, col));
    }
    assert_eq!(
        seen,
        vec![(1, 0, 0), (2, 0, 1), (3, 0, 2), (4, 1, 0), (5, 1, 1), (6, 1, 2)]
    );
    assert!(it.next().is_none());
    assert!(it.next().is_none());
}

#[test]
fn cursor_can_start_in_the_middle() {
    let data = vec![0, 1, 2, 3];
    let mut it = MatrixIterator::new(1, 0, 2, &data, 2, 2);
    assert_eq!(it.next(), Some((&2, 1, 0)));
    assert_eq!(it.next(), Some((&3, 1, 1)));
    assert_eq!(it.next(), None);
    let mut it = MatrixIterator::new(0, 2, 2, &data, 2, 2);
    assert_eq!(it.next(), Some((&2, 1, 0)));
}

#[test]
fn writing_cursor_changes_the_matrix() {
    let mut m = Matrix::new(vec![vec![0, 1], vec![2, 3]]);
    let mut it = m.iter_mut();
    while let Some((e, row, col)) = it.next() {
        *e = *e * 10 + (row * 2 + col) as i32;
    }
    assert_eq!(m, Matrix::new(vec![vec![0, 11], vec![22, 33]]));
    let mut it = m.iter_mut();
    if let Some((e, _, _)) = it.next() {
        *e = -1;
    }
    assert_eq!(m, Matrix::new(vec![vec![-1, 11], vec![22, 33]]));
}

#[test]
fn writing_cursor_can_start_in_the_middle() {
    let mut data = vec![0, 1, 2, 3];
    let mut it = MatrixIteratorMut::new(1, 0, &mut data[2..], 2, 2);
    assert_eq!(it.next(), Some((&mut 2, 1, 0)));
    if let Some((e, row, col)) = it.next() {
        assert_eq!((row, col), (1, 1));
        *e = 9;
    }
    assert_eq!(it.next(), None);
    assert_eq!(data, vec![0, 1, 2, 9]);
}

#[test]
fn filled_repeats_the_value() {
    assert_eq!(Matrix::filled(7, 2, 3), Matrix::new(vec![vec![7, 7, 7], vec![7, 7, 7]]));
    assert_eq!(Matrix::filled(7, 0, 3), Matrix::create_from_data(vec![], 0, 3));
}

#[test]
fn matrices_of_different_shape_differ() {
    assert_ne!(
        Matrix::create_from_data(vec![1, 2, 3, 4], 2, 2),
        Matrix::create_from_data(vec![1, 2, 3, 4], 1, 4)
    );
    assert_ne!(
        Matrix::create_from_data(vec![1, 2, 3, 4], 2, 2),
        Matrix::create_from_data(vec![1, 2, 3, 5], 2, 2)
    );
}

#[test]
fn clone_gives_an_equal_matrix() {
    let m = a();
    let copy = m.clone();
    assert_eq!(copy, m);
    assert_eq!(copy.get(1, 1), 5);
    assert_eq!(Scalar(3).clone(), Scalar(3));
    assert_ne!(Scalar(3), Scalar(4));
}

#[test]
fn wrapped_function_can_be_invoked_again() {
    let offset = 10;
    let shift = Func::new(move |x: i32| x + offset);
    assert_eq!(shift.0.apply(1), 11);
    assert_eq!(shift.0.apply(2), 12);
    let m = Matrix::new(vec![vec![1, 2]]);
    assert_eq!(&shift % &m, Matrix::new(vec![vec![11, 12]]));
    assert_eq!(&shift % &m, Matrix::new(vec![vec![11, 12]]));
}

#[test]
fn operator_product_without_cells() {
    let none: Matrix<i32> = Matrix::create_from_data(vec![], 0, 0);
    assert_eq!(&none * &none, Matrix::create_from_data(vec![], 0, 0));
    let no_cols: Matrix<i32> = Matrix::create_from_data(vec![], 2, 0);
    assert_eq!(&no_cols * &none, Matrix::create_from_data(vec![], 2, 0));
    let no_rows: Matrix<i32> = Matrix::create_from_data(vec![], 0, 2);
    let some = Matrix::new(vec![vec![1, 2, 3], vec![4, 5, 6]]);
    assert_eq!(&no_rows * &some, Matrix::create_from_data(vec![], 0, 3));
}

#[test]
fn matrix_product_is_associative_over_no_inner_index() {
    let a: Matrix<i32> = Matrix::create_from_data(vec![], 2, 0);
    let b: Matrix<i32> = Matrix::create_from_data(vec![], 0, 3);
    let c = Matrix::new(vec![vec![1, 2], vec![3, 4], vec![5, 6]]);
    assert_eq!(a.product(&b).product(&c), a.product(&b.product(&c)));
    assert_eq!(a.product(&b).product(&c), Matrix::filled(0, 2, 2));
    let a = Matrix::new(vec![vec![1, 2, 3], vec![4, 5, 6]]);
    let b: Matrix<i32> = Matrix::create_from_data(vec![], 3, 0);
    let c: Matrix<i32> = Matrix::create_from_data(vec![], 0, 2);
    assert_eq!(a.product(&b).product(&c), a.product(&b.product(&c)));
    assert_eq!(a.product(&b.product(&c)), Matrix::filled(0, 2, 2));
}

#[test]
fn writing_cursor_over_a_short_storage_yields_what_there_is() {
    let mut buf = [1];
    let mut it = MatrixIteratorMut::new(0, 0, &mut buf, 2, 2);
    assert_eq!(it.next(), Some((&mut 1, 0, 0)));
    assert_eq!(it.next(), None);
    assert_eq!(it.next(), None);
}

#[test]
fn writing_cursor_over_a_long_storage_ends_with_the_rows() {
    let mut buf = [1, 2, 3, 4, 5];
    let mut it = MatrixIteratorMut::new(0, 0, &mut buf, 2, 2);
    assert_eq!(it.next(), Some((&mut 1, 0, 0)));
    assert_eq!(it.next(), Some((&mut 2, 0, 1)));
    assert_eq!(it.next(), Some((&mut 3, 1, 0)));
    if let Some((e, row, col)) = it.next() {
        assert_eq!((row, col), (1, 1));
        *e = 40;
    }
    assert_eq!(it.next(), None);
    assert_eq!(it.next(), None);
    assert_eq!(buf, [1, 2, 3, 40, 5]);
}
