use matrix_algebra::{Matrix, Scalar};

#[test]
fn test_scalar_mul_1() {
    let m = Matrix::new(vec![vec![0, 1], vec![2, 3]]);
    assert_eq!(m * 2, Matrix::create_from_data(vec![0, 2, 4, 6], 2, 2));
}

#[test]
fn test_scalar_mul_2() {
    let m = Matrix::new(vec![vec![0, 1], vec![2, 3]]);
    assert_eq!(&m * 2, Matrix::create_from_data(vec![0, 2, 4, 6], 2, 2));
}

#[test]
fn test_scalar_mul_3() {
    let m = Matrix::new(vec![vec![0, 1], vec![2, 3]]);
    assert_eq!(
        Scalar(2) * m,
        Matrix::create_from_data(vec![0, 2, 4, 6], 2, 2)
    );
}

#[test]
fn test_scalar_mul_4() {
    let m = Matrix::new(vec![vec![0, 1], vec![2, 3]]);
    assert_eq!(
        Scalar(2) * &m,
        Matrix::create_from_data(vec![0, 2, 4, 6], 2, 2)
    );
}

#[test]
fn test_scalar_mul_5() {
    let m = Matrix::new(vec![vec![0, 1], vec![2, 3]]);
    assert_eq!(
        &Scalar(2) * &m,
        Matrix::create_from_data(vec![0, 2, 4, 6], 2, 2)
    );
}

#[test]
fn test_scalar_mul_6() {
    let m = Matrix::new(vec![vec![0, 1], vec![2, 3]]);
    assert_eq!(
        (&Scalar(2) * &Scalar(1)) * &m,
        Matrix::create_from_data(vec![0, 2, 4, 6], 2, 2)
    );
}

#[test]
fn test_scalar_mul_7() {
    let m = Matrix::new(vec![vec![0, 1], vec![2, 3]]);
    assert_eq!(
        (Scalar(2) * Scalar(1)) * &m,
        Matrix::create_from_data(vec![0, 2, 4, 6], 2, 2)
    );
}
