use matrix_algebra::Matrix;

#[test]
fn test_mul_1() {
    let m1 = Matrix::new(vec![vec![1.0, 0.0], vec![0.0, 1.0]]);
    let m2 = Matrix::new(vec![vec![1.0, 1.0], vec![1.0, 1.0]]);
    assert_eq!(
        &m1 * &m2,
        Matrix::create_from_data(vec![1.0, 1.0, 1.0, 1.0], 2, 2)
    );
}

#[test]
fn test_mul_2() {
    let m1 = Matrix::new(vec![vec![1.0, 2.0], vec![2.0, 1.0]]);
    let m2 = Matrix::new(vec![vec![1.0, 1.0], vec![1.0, 1.0]]);
    assert_eq!(
        &m1 * &m2,
        Matrix::create_from_data(vec![3.0, 3.0, 3.0, 3.0], 2, 2)
    );
}

#[test]
fn test_mul_3() {
    let m1 = Matrix::new(vec![vec![1.0, 0.0], vec![0.0, 1.0]]);
    let m2 = Matrix::new(vec![vec![1.0, 1.0], vec![1.0, 1.0]]);
    let m3 = Matrix::new(vec![vec![1.0, 1.0], vec![1.0, 1.0]]);
    assert_eq!(
        &m1 * (&m2 * &m3),
        Matrix::create_from_data(vec![2.0, 2.0, 2.0, 2.0], 2, 2)
    );
}

#[test]
fn test_mul_4() {
    let m1 = Matrix::new(vec![vec![1.0, 0.0], vec![0.0, 1.0]]);
    let m2 = Matrix::new(vec![vec![1.0, 1.0], vec![1.0, 1.0]]);
    let m3 = Matrix::new(vec![vec![1.0, 1.0], vec![1.0, 1.0]]);
    assert_eq!(
        (&m1 * &m2) * &m3,
        Matrix::create_from_data(vec![2.0, 2.0, 2.0, 2.0], 2, 2)
    );
}

#[test]
fn test_mul_5() {
    let m1 = Matrix::new(vec![vec![1.0, 0.0], vec![0.0, 1.0]]);
    let m2 = Matrix::new(vec![vec![1.0, 1.0], vec![1.0, 1.0]]);
    let m3 = Matrix::new(vec![vec![1.0, 1.0], vec![1.0, 1.0]]);
    assert_eq!(
        (&m1 * &m2) * (&m1 * &m3),
        Matrix::create_from_data(vec![2.0, 2.0, 2.0, 2.0], 2, 2)
    );
}
