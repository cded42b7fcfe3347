//! The borrowed byte, buffer and text views: construction, equality,
//! ordering, empty canonical forms and debug rendering.

use ffi_types::FfiBuffer;
use ffi_types::FfiByteSlice;
use ffi_types::FfiString;

#[test]
fn make_slices() {
    let data1 = &[1, 2, 3, 4];
    let data2 = &[1, 2, 3, 4];
    let data3 = vec![1, 2, 3, 5];
    let slice1 = FfiByteSlice::new(data1);
    let slice2 = FfiByteSlice::new(data2);
    let slice3 = FfiByteSlice::new(&data3);
    assert_eq!(slice1, slice2);
    assert_ne!(slice1, slice3);
    assert!(slice1 < slice3);
}

#[test]
fn make_buffers() {
    let data1 = vec![1, 2, 3, 4];
    let data2 = vec![1, 2, 3, 4];
    let data3 = vec![1, 2, 3, 5];
    let buffer1 = FfiBuffer::new(data1);
    let buffer2 = FfiBuffer::new(data2);
    let buffer3 = FfiBuffer::new(data3);
    assert_eq!(buffer1, buffer2);
    assert_ne!(buffer1, buffer3);
    assert!(buffer1 < buffer3);

    let output1 = buffer1.as_mut_slice().unwrap();
    assert_eq!(output1, vec![1, 2, 3, 4]);
}

#[test]
fn make_string() {
    let s: FfiString = "Hello, world!".into();
    let output = s.display_string();
    assert_eq!(&output, "Hello, world!");
}

#[test]
fn empty_canonical_forms() {
    // The canonical empty buffer yields no writable view.
    assert!(FfiBuffer::empty().as_mut_slice().is_none());
    // A zero-length region is still a region: its view is present.
    assert_eq!(FfiBuffer::new(vec![]).as_mut_slice().unwrap(), vec![]);
    // The canonical empty slice is always readable, never absent.
    assert_eq!(FfiByteSlice::empty().as_slice().len(), 0);
    assert_eq!(FfiBuffer::empty().as_slice().len(), 0);
}

#[test]
fn length_first_equality() {
    let short = [1u8, 2];
    let long = [1u8, 2, 0];
    assert_ne!(FfiByteSlice::new(&short), FfiByteSlice::new(&long));
    assert_ne!(FfiBuffer::new(vec![1, 2]), FfiBuffer::new(vec![1, 2, 0]));
}

#[test]
fn bytewise_equality() {
    let a = [9u8, 8, 7];
    let b = [9u8, 8, 7];
    let c = [9u8, 8, 6];
    assert_eq!(FfiByteSlice::new(&a), FfiByteSlice::new(&b));
    assert_ne!(FfiByteSlice::new(&a), FfiByteSlice::new(&c));
}

#[test]
fn lexicographic_ordering() {
    let lower = [1u8, 2, 3, 4];
    let upper = [1u8, 2, 3, 5];
    assert!(FfiByteSlice::new(&lower) < FfiByteSlice::new(&upper));
    assert!(FfiBuffer::new(lower.to_vec()) < FfiBuffer::new(upper.to_vec()));
    // A proper prefix orders before any extension of it.
    let prefix = [1u8, 2, 3];
    assert!(FfiByteSlice::new(&prefix) < FfiByteSlice::new(&lower));
}

#[test]
fn debug_hex_rendering() {
    let bytes = [0xAB, 0x01];
    assert_eq!(FfiByteSlice::new(&bytes).debug_string(), "[ 0xab, 0x01 ]");
    assert_eq!(FfiBuffer::new(vec![0xAB, 0x01]).debug_string(), "[ 0xab, 0x01 ]");
    assert_eq!(FfiByteSlice::empty().debug_string(), "[ ]");
    assert_eq!(FfiBuffer::empty().debug_string(), "[ ]");
    let one = [0x7F];
    assert_eq!(FfiByteSlice::new(&one).debug_string(), "[ 0x7f ]");
}

#[test]
fn slice_conversions() {
    let data = [4u8, 5, 6];
    let slice: FfiByteSlice = data.as_slice().into();
    assert_eq!(slice.as_slice(), &[4, 5, 6]);
    let buffer: FfiBuffer = vec![4u8, 5, 6].into();
    assert_eq!(buffer.as_slice(), &[4, 5, 6]);
    let cloned = buffer.clone();
    assert_eq!(cloned, buffer);
}

#[test]
fn text_views() {
    let t1 = FfiString::new("abc");
    let t2 = FfiString::new("abc");
    let t3 = FfiString::new("abd");
    assert_eq!(t1, t2);
    assert_ne!(t1, t3);
    assert!(t1 < t3);
    assert_eq!(t1.as_str(), "abc");
    assert_eq!(t1.debug_string(), "\"abc\"");
}
