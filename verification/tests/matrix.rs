use matrix_algebra::Matrix;

#[test]
fn test_iter() {
    let m = Matrix::new(vec![vec![0, 1], vec![2, 3]]);
    let mut it = m.iter();
    let mut items: Vec<(&u32, usize, usize)> = Vec::new();
    while let Some(item) = it.next() {
        items.push(item);
    }
    assert_eq!(items, vec![(&0, 0, 0), (&1, 0, 1), (&2, 1, 0), (&3, 1, 1)]);
}

#[test]
fn test_iter_mut() {
    let mut m = Matrix::new(vec![vec![0, 1], vec![2, 3]]);
    let mut it = m.iter_mut();
    let mut items: Vec<(&mut u32, usize, usize)> = Vec::new();
    while let Some(item) = it.next() {
        items.push(item);
    }
    assert_eq!(
        items,
        vec![
            (&mut 0, 0, 0),
            (&mut 1, 0, 1),
            (&mut 2, 1, 0),
            (&mut 3, 1, 1)
        ]
    );
}

#[test]
fn test_get_row_1() {
    let m = Matrix::new(vec![vec![0, 1], vec![2, 3]]);
    assert_eq!(m.get_row(0), Matrix::create_from_data(vec![0, 1], 1, 2));
}

#[test]
fn test_get_row_2() {
    let m = Matrix::new(vec![vec![0, 1], vec![2, 3]]);
    assert_eq!(m.get_row(1), Matrix::create_from_data(vec![2, 3], 1, 2));
}

#[test]
fn test_get_col_1() {
    let m = Matrix::new(vec![vec![0, 1], vec![2, 3]]);
    assert_eq!(m.get_col(0), Matrix::create_from_data(vec![0, 2], 2, 1));
}

#[test]
fn test_get_col_2() {
    let m = Matrix::new(vec![vec![0, 1], vec![2, 3]]);
    assert_eq!(m.get_col(1), Matrix::create_from_data(vec![1, 3], 2, 1));
}

#[test]
fn test_trans() {
    let m = Matrix::new(vec![vec![0, 1], vec![2, 3]]);
    assert_eq!(m.trans(), Matrix::new(vec![vec![0, 2], vec![1, 3]]));
}
