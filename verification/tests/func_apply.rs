use matrix_algebra::{Func, Matrix};

#[test]
fn test_func_apply_1() {
    let m = Matrix::new(vec![vec![0, 1], vec![2, 3]]);
    let double = Func::new(|x| 2 * x);
    assert_eq!(double % m, Matrix::new(vec![vec![0, 2], vec![4, 6]]));
}

#[test]
fn test_func_apply_2() {
    let m = &Matrix::new(vec![vec![0, 1], vec![2, 3]]);
    let double = Func::new(|x| 2 * x);
    assert_eq!(double % m, Matrix::new(vec![vec![0, 2], vec![4, 6]]));
}

#[test]
fn test_func_apply_3() {
    let m = &Matrix::new(vec![vec![0, 1], vec![2, 3]]);
    let double = &Func::new(|x| 2 * x);
    assert_eq!(double % m, Matrix::new(vec![vec![0, 2], vec![4, 6]]));
}

#[test]
fn test_func_apply_4() {
    let m = Matrix::new(vec![vec![0, 1], vec![2, 3]]);
    let double = &Func::new(|x| 2 * x);
    assert_eq!(double % m, Matrix::new(vec![vec![0, 2], vec![4, 6]]));
}
