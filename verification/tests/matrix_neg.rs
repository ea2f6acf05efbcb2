use matrix_algebra::Matrix;

#[test]
fn test_neg_1() {
    let m1 = Matrix::new(vec![vec![1, 0], vec![0, 1]]);
    assert_eq!(-&m1, Matrix::create_from_data(vec![-1, 0, 0, -1], 2, 2));
}

#[test]
fn test_neg_2() {
    let m1 = Matrix::new(vec![vec![1, 0], vec![0, 1]]);
    assert_eq!(--&m1, Matrix::create_from_data(vec![1, 0, 0, 1], 2, 2));
}
