use nn_layers::optimize::AccumulatorShape;
use nn_layers::shape::{affine_shape, dot_shape, same_shape, NetShape, Shape2, ShapeError};

fn s(rows: usize, cols: usize) -> Shape2 {
    Shape2 { rows, cols }
}

#[test]
fn same_shape_accepts_equal_shapes() {
    assert_eq!(same_shape(&vec![2, 3], &vec![2, 3]), Ok(()));
    assert_eq!(same_shape(&vec![], &vec![]), Ok(()));
}

#[test]
fn same_shape_rejects_different_shapes() {
    assert_eq!(
        same_shape(&vec![2, 3], &vec![3, 2]),
        Err(ShapeError::Mismatch { left: vec![2, 3], right: vec![3, 2] })
    );
    assert_eq!(
        same_shape(&vec![3], &vec![3, 1]),
        Err(ShapeError::Mismatch { left: vec![3], right: vec![3, 1] })
    );
}

#[test]
fn dot_shape_of_compatible_factors() {
    assert_eq!(dot_shape(s(2, 3), s(3, 4)), Ok(s(2, 4)));
}

#[test]
fn dot_shape_rejects_inner_dimension() {
    assert_eq!(dot_shape(s(2, 3), s(2, 4)), Err(ShapeError::InnerDim { left_cols: 3, right_rows: 2 }));
}

#[test]
fn affine_shape_cases() {
    assert_eq!(affine_shape(s(2, 3), s(3, 3), 3), Ok(s(2, 3)));
    assert_eq!(affine_shape(s(2, 3), s(3, 5), 4), Err(ShapeError::Length { expected: 5, found: 4 }));
    assert_eq!(affine_shape(s(2, 2), s(3, 5), 5), Err(ShapeError::InnerDim { left_cols: 2, right_rows: 3 }));
}

#[test]
fn net_shape_predict_and_loss() {
    let net = NetShape::new(784, 50, 10);
    assert_eq!(net.w1, s(784, 50));
    assert_eq!(net.w2, s(50, 10));
    assert_eq!((net.b1, net.aff, net.b2), (50, 2, 10));
    assert_eq!(net.predict_shape(s(100, 784)), Ok(s(100, 10)));
    assert_eq!(net.loss_shape(s(100, 784), s(100, 10)), Ok(100));
    assert_eq!(
        net.predict_shape(s(100, 783)),
        Err(ShapeError::InnerDim { left_cols: 783, right_rows: 784 })
    );
    assert_eq!(
        net.loss_shape(s(100, 784), s(99, 10)),
        Err(ShapeError::Target { scores: s(100, 10), target: s(99, 10) })
    );
}

#[test]
fn net_shape_checks_every_parameter() {
    let mut net = NetShape::new(4, 3, 2);
    net.aff = 3;
    assert_eq!(net.predict_shape(s(1, 4)), Err(ShapeError::Length { expected: 2, found: 3 }));
    let mut net = NetShape::new(4, 3, 2);
    net.b2 = 5;
    assert_eq!(net.predict_shape(s(1, 4)), Err(ShapeError::Length { expected: 2, found: 5 }));
    let mut net = NetShape::new(4, 3, 2);
    net.w2 = s(4, 2);
    assert_eq!(net.predict_shape(s(1, 4)), Err(ShapeError::InnerDim { left_cols: 3, right_rows: 4 }));
}

#[test]
fn accumulator_binds_on_first_update() {
    let mut acc = AccumulatorShape::new();
    assert_eq!(acc.shape(), None);
    assert_eq!(acc.bind(&vec![3, 2], &vec![3, 2]), Ok(true));
    assert_eq!(acc.shape(), Some(vec![3, 2]));
    assert_eq!(acc.bind(&vec![3, 2], &vec![3, 2]), Ok(false));
    assert_eq!(acc.shape(), Some(vec![3, 2]));
}

#[test]
fn accumulator_rejects_other_shape() {
    let mut acc = AccumulatorShape::new();
    assert_eq!(acc.bind(&vec![4], &vec![4]), Ok(true));
    assert_eq!(
        acc.bind(&vec![5], &vec![5]),
        Err(ShapeError::Mismatch { left: vec![4], right: vec![5] })
    );
    assert_eq!(acc.shape(), Some(vec![4]));
}

#[test]
fn accumulator_rejects_gradient_of_other_shape() {
    let mut acc = AccumulatorShape::new();
    assert_eq!(
        acc.bind(&vec![2, 2], &vec![2, 3]),
        Err(ShapeError::Mismatch { left: vec![2, 2], right: vec![2, 3] })
    );
    assert_eq!(acc.shape(), None);
}
