use tensor_core::element::ElementKind;
use tensor_core::layout::LayoutError;
use tensor_core::tensor::Tensor;

#[test]
fn scenario_3x3_f32() {
    let t = Tensor::new(vec![3, 3], ElementKind::F32).unwrap();
    assert_eq!(t.logical_count(), 9);
    assert_eq!(t.padded_count(), 16);
    assert_eq!(t.byte_size(), 64);
    assert_eq!(t.alignment(), 32);
}

#[test]
fn scenario_8_f32() {
    let t = Tensor::new(vec![8], ElementKind::F32).unwrap();
    assert_eq!(t.logical_count(), 8);
    assert_eq!(t.padded_count(), 8);
    assert_eq!(t.byte_size(), 32);
}

#[test]
fn scenario_2x2x2_i64() {
    let t = Tensor::new(vec![2, 2, 2], ElementKind::I64).unwrap();
    assert_eq!(t.logical_count(), 8);
    assert_eq!(t.padded_count(), 8);
    assert_eq!(t.byte_size(), 64);
}

#[test]
fn scenario_5_u8() {
    let t = Tensor::new(vec![5], ElementKind::U8).unwrap();
    assert_eq!(t.logical_count(), 5);
    assert_eq!(t.padded_count(), 8);
    assert_eq!(t.byte_size(), 8);
}

#[test]
fn scenario_4x0_fails() {
    let r = Tensor::new(vec![4, 0], ElementKind::F32);
    assert!(matches!(r, Err(LayoutError::ZeroDimension)));
}

#[test]
fn zero_dimension_rejected() {
    assert!(matches!(
        Tensor::new(vec![0], ElementKind::F64),
        Err(LayoutError::ZeroDimension)
    ));
    assert!(matches!(
        Tensor::new(vec![3, 0], ElementKind::U32),
        Err(LayoutError::ZeroDimension)
    ));
    assert!(matches!(
        Tensor::new(vec![0, 0, 0], ElementKind::I16),
        Err(LayoutError::ZeroDimension)
    ));
}

#[test]
fn empty_shape_holds_one_element() {
    let t = Tensor::new(vec![], ElementKind::F64).unwrap();
    assert_eq!(t.logical_count(), 1);
    assert_eq!(t.padded_count(), 8);
    assert_eq!(t.byte_size(), 64);
    assert_eq!(t.shape().rank(), 0);
}

#[test]
fn buffer_matches_byte_size() {
    let t = Tensor::new(vec![7, 5], ElementKind::U16).unwrap();
    assert_eq!(t.logical_count(), 35);
    assert_eq!(t.padded_count(), 40);
    assert_eq!(t.byte_size(), 80);
    assert_eq!(t.buffer().len(), t.byte_size());
}

#[test]
fn padding_is_least_multiple_of_8() {
    for n in 1..64usize {
        let t = Tensor::new(vec![n], ElementKind::U8).unwrap();
        let padded = t.padded_count();
        assert_eq!(padded % 8, 0);
        assert!(padded >= n);
        assert!(padded < n + 8);
    }
}

#[test]
fn product_overflow_rejected() {
    let r = Tensor::new(vec![usize::MAX, 2], ElementKind::U8);
    assert!(matches!(r, Err(LayoutError::SizeOverflow)));
}

#[test]
fn padded_count_overflow_rejected() {
    let r = Tensor::new(vec![usize::MAX], ElementKind::U8);
    assert!(matches!(r, Err(LayoutError::SizeOverflow)));
}

#[test]
fn byte_size_overflow_rejected() {
    let r = Tensor::new(vec![usize::MAX / 4], ElementKind::U64);
    assert!(matches!(r, Err(LayoutError::SizeOverflow)));
}

#[test]
fn shape_is_kept_by_the_buffer() {
    let t = Tensor::new(vec![4, 3, 2], ElementKind::I32).unwrap();
    assert_eq!(t.shape().rank(), 3);
    assert_eq!(t.shape().dims(), &vec![4, 3, 2]);
    assert_eq!(t.shape().dim(0), 4);
    assert_eq!(t.shape().dim(1), 3);
    assert_eq!(t.shape().dim(2), 2);
    assert_eq!(t.element_kind(), ElementKind::I32);
}

#[test]
fn construct_and_drop_many() {
    for round in 0..200usize {
        let t = Tensor::new(vec![3, 3], ElementKind::F32).unwrap();
        assert_eq!(t.byte_size(), 64);
        let u = Tensor::new(vec![round + 1], ElementKind::U64).unwrap();
        assert_eq!(u.logical_count(), round + 1);
        drop(u);
        drop(t);
    }
}
