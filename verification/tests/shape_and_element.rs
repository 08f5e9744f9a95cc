use tensor_core::element::{ElementKind, MatrixElement};
use tensor_core::layout::LayoutError;
use tensor_core::shape::Shape;
use tensor_core::tensor::Tensor;

#[test]
fn shape_construction_keeps_dimensions() {
    let s = Shape::new(vec![2, 5, 7]).unwrap();
    assert_eq!(s.rank(), 3);
    assert_eq!(s.dims(), &vec![2, 5, 7]);
    assert_eq!(s.dim(1), 5);
}

#[test]
fn shape_rejects_any_zero() {
    assert!(matches!(Shape::new(vec![0]), Err(LayoutError::ZeroDimension)));
    assert!(matches!(Shape::new(vec![3, 0]), Err(LayoutError::ZeroDimension)));
    assert!(matches!(
        Shape::new(vec![0, 0, 0]),
        Err(LayoutError::ZeroDimension)
    ));
    assert!(matches!(Shape::new(vec![1, 2, 0, 4]), Err(LayoutError::ZeroDimension)));
}

#[test]
fn shape_clone_is_plain_data() {
    let s = Shape::new(vec![6, 1]).unwrap();
    let c = s.clone();
    assert_eq!(c.rank(), 2);
    assert_eq!(c.dims(), s.dims());
}

#[test]
fn empty_shape_is_accepted() {
    let s = Shape::new(vec![]).unwrap();
    assert_eq!(s.rank(), 0);
    assert_eq!(s.dims(), &Vec::<usize>::new());
}

#[test]
fn element_kind_sizes() {
    assert_eq!(ElementKind::F32.size_in_bytes(), 4);
    assert_eq!(ElementKind::F64.size_in_bytes(), 8);
    assert_eq!(ElementKind::U8.size_in_bytes(), 1);
    assert_eq!(ElementKind::U16.size_in_bytes(), 2);
    assert_eq!(ElementKind::U32.size_in_bytes(), 4);
    assert_eq!(ElementKind::U64.size_in_bytes(), 8);
    assert_eq!(ElementKind::I8.size_in_bytes(), 1);
    assert_eq!(ElementKind::I16.size_in_bytes(), 2);
    assert_eq!(ElementKind::I32.size_in_bytes(), 4);
    assert_eq!(ElementKind::I64.size_in_bytes(), 8);
}

#[test]
fn element_kinds_match_their_types() {
    assert_eq!(u8::kind(), ElementKind::U8);
    assert_eq!(u16::kind(), ElementKind::U16);
    assert_eq!(u32::kind(), ElementKind::U32);
    assert_eq!(u64::kind(), ElementKind::U64);
    assert_eq!(i8::kind(), ElementKind::I8);
    assert_eq!(i16::kind(), ElementKind::I16);
    assert_eq!(i32::kind(), ElementKind::I32);
    assert_eq!(i64::kind(), ElementKind::I64);
}

#[test]
fn typed_construction_uses_the_element_width() {
    let t = Tensor::new_for::<i64>(vec![2, 2, 2]).unwrap();
    assert_eq!(t.element_kind(), ElementKind::I64);
    assert_eq!(t.logical_count(), 8);
    assert_eq!(t.padded_count(), 8);
    assert_eq!(t.byte_size(), 64);

    let u = Tensor::new_for::<u8>(vec![5]).unwrap();
    assert_eq!(u.element_kind(), ElementKind::U8);
    assert_eq!(u.byte_size(), 8);
}

#[test]
fn construction_from_a_validated_shape() {
    let s = Shape::new(vec![3, 3]).unwrap();
    let t = Tensor::from_shape(s, ElementKind::F32).unwrap();
    assert_eq!(t.logical_count(), 9);
    assert_eq!(t.padded_count(), 16);
    assert_eq!(t.byte_size(), 64);
}

#[test]
fn typed_construction_rejects_zero_dimension() {
    let r = Tensor::new_for::<u32>(vec![4, 0]);
    assert!(matches!(r, Err(LayoutError::ZeroDimension)));
}
