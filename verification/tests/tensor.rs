use rustflow::error::Error;
use rustflow::tensor::Tensor;
use rustflow::tensor_type::TensorType;

#[test]
fn matching_data_builds_the_tensor() {
    let tensor = Tensor::from_slice(&[2, 2], &[1i32, 2, 3, 4]).unwrap();
    assert_eq!(tensor.shape(), &[2, 2]);
    assert_eq!(tensor.len(), 4);
    assert_eq!(tensor.as_slice(), &[1, 2, 3, 4]);
}

#[test]
fn mismatched_data_is_an_invalid_shape() {
    let result = Tensor::from_slice(&[2, 2], &[1i32, 2, 3]);
    match result {
        Err(Error::InvalidShape { data_len, shape }) => {
            assert_eq!(data_len, 3);
            assert_eq!(shape, vec![2, 2]);
        }
        _ => panic!("a shape calling for 4 elements must refuse 3"),
    }
}

#[test]
fn scalar_shape_calls_for_one_element() {
    let tensor = Tensor::from_slice(&[], &[7u8]).unwrap();
    assert_eq!(tensor.shape(), &[] as &[i64]);
    assert_eq!(tensor.as_slice(), &[7]);
    assert!(Tensor::from_slice(&[], &[] as &[u8]).is_err());
}

#[test]
fn zero_dimension_calls_for_no_elements() {
    let tensor = Tensor::from_slice(&[2, 0, 3], &[] as &[i64]).unwrap();
    assert_eq!(tensor.shape(), &[2, 0, 3]);
    assert_eq!(tensor.len(), 0);
    assert!(Tensor::from_slice(&[2, 0, 3], &[1i64]).is_err());
}

#[test]
fn overlarge_shape_is_refused_without_panicking() {
    let result = Tensor::from_slice(&[i64::MAX, i64::MAX, 2], &[1u16, 2]);
    match result {
        Err(Error::InvalidShape { data_len, shape }) => {
            assert_eq!(data_len, 2);
            assert_eq!(shape, vec![i64::MAX, i64::MAX, 2]);
        }
        _ => panic!("an element count beyond any slice must be a shape mismatch"),
    }
}

#[test]
fn zero_dimension_after_huge_dimensions_still_counts_zero() {
    let tensor = Tensor::from_slice(&[i64::MAX, i64::MAX, 0], &[] as &[u64]).unwrap();
    assert_eq!(tensor.len(), 0);
}

#[test]
fn elements_read_and_write_in_storage_order() {
    let mut tensor = Tensor::from_slice(&[3], &[10i16, 20, 30]).unwrap();
    assert_eq!(*tensor.get(1), 20);
    tensor.set(1, 25);
    assert_eq!(*tensor.get(1), 25);
    assert_eq!(tensor.as_slice(), &[10, 25, 30]);
    assert_eq!(tensor.shape(), &[3]);
}

#[test]
fn each_host_type_names_its_native_tag() {
    assert_eq!(<i8 as TensorType>::tf_type(), 6);
    assert_eq!(<i16 as TensorType>::tf_type(), 5);
    assert_eq!(<i32 as TensorType>::tf_type(), 3);
    assert_eq!(<i64 as TensorType>::tf_type(), 9);
    assert_eq!(<u8 as TensorType>::tf_type(), 4);
    assert_eq!(<u16 as TensorType>::tf_type(), 17);
    assert_eq!(<u32 as TensorType>::tf_type(), 22);
    assert_eq!(<u64 as TensorType>::tf_type(), 23);
}
