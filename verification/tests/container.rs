use rktensor::tensor::{Tensor, TensorError};

#[test]
fn new_round_trips_data_and_shape() {
    let data = vec![1u8, 2, 3, 4, 5, 6];
    let shape = vec![2usize, 3];
    let t = Tensor::new(data.clone(), shape.clone()).expect("lengths match");
    assert_eq!(t.data(), &data);
    assert_eq!(t.shape(), &shape);
}

#[test]
fn empty_shape_describes_a_scalar() {
    let t = Tensor::new(vec![42u8], Vec::new()).expect("product of an empty shape is 1");
    assert_eq!(t.data(), &vec![42u8]);
    assert_eq!(t.shape().len(), 0);
}

#[test]
fn zero_dimension_requires_empty_data() {
    let t = Tensor::new(Vec::<u8>::new(), vec![0usize, 4]).expect("product is 0");
    assert_eq!(t.data().len(), 0);
    let r = Tensor::new(vec![1u8], vec![0usize, 4]);
    assert!(matches!(r, Err(TensorError::ShapeMismatch)));
}

#[test]
fn mismatched_lengths_are_rejected() {
    let r = Tensor::new(vec![1u8, 2, 3, 4, 5], vec![2usize, 3]);
    assert!(matches!(r, Err(TensorError::ShapeMismatch)));
    let r = Tensor::new(Vec::<u8>::new(), Vec::new());
    assert!(matches!(r, Err(TensorError::ShapeMismatch)));
}

#[test]
fn oversized_shape_product_is_a_mismatch() {
    // the mathematical product exceeds usize::MAX, so no buffer can match it
    let r = Tensor::new(vec![0u8; 8], vec![usize::MAX, 2]);
    assert!(matches!(r, Err(TensorError::ShapeMismatch)));
    // a zero dimension brings the product back to zero, whatever stands beside it
    let t = Tensor::new(Vec::<u8>::new(), vec![usize::MAX, usize::MAX, 0]);
    assert!(t.is_ok());
}

#[test]
fn get_returns_elements_in_range() {
    let t = Tensor::new(vec![10u8, 20, 30], vec![3usize]).expect("lengths match");
    assert_eq!(t.get(0).expect("in range"), &10);
    assert_eq!(t.get(2).expect("in range"), &30);
}

#[test]
fn get_rejects_out_of_range_index() {
    let t = Tensor::new(vec![10u8, 20, 30], vec![3usize]).expect("lengths match");
    let e = t.get(3).expect_err("out of range");
    assert!(matches!(e, TensorError::Message(_)));
    assert!(!e.message().is_empty());
}

#[test]
fn errors_render_messages() {
    assert!(!TensorError::ShapeMismatch.message().is_empty());
    assert!(!TensorError::InvalidType.message().is_empty());
    assert!(!TensorError::UnsafeOperation.message().is_empty());
    let e = TensorError::Message("boom".to_owned());
    assert_eq!(e.message(), "boom");
}
