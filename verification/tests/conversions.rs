//! Conversions between the native optional/fallible types and their
//! fixed-layout encodings.

use ffi_types::FfiOption;
use ffi_types::FfiResult;

#[test]
fn make_option() {
    let native: core::option::Option<i32> = Some(1234);
    let ffi: FfiOption<i32> = native.into();
    println!("ffi = {:?}", ffi);
}

#[test]
fn make_result() {
    let native: core::result::Result<i32, ()> = Ok(1234);
    let ffi: FfiResult<i32, ()> = native.into();
    println!("ffi = {:?}", ffi);
}

#[test]
fn option_round_trip() {
    let present: Option<i32> = Some(5);
    let ffi: FfiOption<i32> = present.into();
    let back: Option<i32> = ffi.into();
    assert_eq!(back, Some(5));

    let absent: Option<i32> = None;
    let ffi: FfiOption<i32> = absent.into();
    let back: Option<i32> = ffi.into();
    assert_eq!(back, None);
}

#[test]
fn ffi_option_round_trip() {
    let ffi: FfiOption<i32> = FfiOption::Present(9);
    let native: Option<i32> = ffi.into();
    let back: FfiOption<i32> = native.into();
    assert_eq!(back, FfiOption::Present(9));

    let ffi: FfiOption<i32> = FfiOption::Absent;
    let native: Option<i32> = ffi.into();
    let back: FfiOption<i32> = native.into();
    assert_eq!(back, FfiOption::Absent);
}

#[test]
fn result_round_trip() {
    let good: Result<i32, &str> = Ok(7);
    let ffi: FfiResult<i32, &str> = good.into();
    let back: Result<i32, &str> = ffi.into();
    assert_eq!(back, Ok(7));

    let bad: Result<i32, &str> = Err("bad");
    let ffi: FfiResult<i32, &str> = bad.into();
    let back: Result<i32, &str> = ffi.into();
    assert_eq!(back, Err("bad"));
}

#[test]
fn ffi_result_round_trip() {
    let ffi: FfiResult<i32, u8> = FfiResult::Failure(3);
    let native: Result<i32, u8> = ffi.into();
    let back: FfiResult<i32, u8> = native.into();
    assert_eq!(back, FfiResult::Failure(3));
}

#[test]
fn option_unwrap_present() {
    let value: FfiOption<i32> = FfiOption::Present(7);
    assert_eq!(value.unwrap(), 7);
}

#[test]
fn result_unwrap_success() {
    let value: FfiResult<i32, ()> = FfiResult::Success(7);
    assert_eq!(value.unwrap(), 7);
}
