use shiguredo_dav1d::{frame_delay_from_code, next_frame_status, Error};

#[test]
fn check_accepts_zero_only() {
    assert!(Error::check(0, "dav1d_open").is_ok());
    let e = Error::check(-22, "dav1d_open").unwrap_err();
    assert_eq!(e.code(), -22);
    assert_eq!(e.function(), "dav1d_open");
    assert!(Error::check(1, "dav1d_open").is_err());
}

const LINUX_EAGAIN: u32 = 11;
const MACOS_EAGAIN: u32 = 35;

#[test]
fn is_eagain_looks_at_the_magnitude() {
    assert!(Error::check(-11, "dav1d_send_data").unwrap_err().is_eagain(LINUX_EAGAIN));
    assert!(Error::check(11, "dav1d_send_data").unwrap_err().is_eagain(LINUX_EAGAIN));
    assert!(!Error::check(-12, "dav1d_send_data").unwrap_err().is_eagain(LINUX_EAGAIN));
    assert!(!Error::check(i32::MIN, "dav1d_send_data").unwrap_err().is_eagain(LINUX_EAGAIN));
}

#[test]
fn is_eagain_uses_the_platform_value() {
    assert!(Error::check(-35, "dav1d_send_data").unwrap_err().is_eagain(MACOS_EAGAIN));
    assert!(!Error::check(-11, "dav1d_send_data").unwrap_err().is_eagain(MACOS_EAGAIN));
    assert!(!Error::check(-35, "dav1d_send_data").unwrap_err().is_eagain(LINUX_EAGAIN));
}

#[test]
fn message_names_function_code_and_errno() {
    let e = Error::check(-11, "dav1d_send_data").unwrap_err();
    assert_eq!(e.message(LINUX_EAGAIN), "dav1d_send_data() failed: code=-11 (EAGAIN)");
    let e = Error::check(-12, "dav1d_data_create").unwrap_err();
    assert_eq!(e.message(LINUX_EAGAIN), "dav1d_data_create() failed: code=-12 (ENOMEM)");
    let e = Error::check(-22, "dav1d_open").unwrap_err();
    assert_eq!(e.message(LINUX_EAGAIN), "dav1d_open() failed: code=-22");
    let e = Error::check(7, "dav1d_get_picture").unwrap_err();
    assert_eq!(e.message(LINUX_EAGAIN), "dav1d_get_picture() failed: code=7");
    let e = Error::check(-35, "dav1d_send_data").unwrap_err();
    assert_eq!(e.message(MACOS_EAGAIN), "dav1d_send_data() failed: code=-35 (EAGAIN)");
    assert_eq!(e.message(LINUX_EAGAIN), "dav1d_send_data() failed: code=-35");
    let e = Error::check(i32::MIN, "f").unwrap_err();
    assert_eq!(e.message(LINUX_EAGAIN), "f() failed: code=-2147483648");
    let e = Error::check(1234567890, "f").unwrap_err();
    assert_eq!(e.message(LINUX_EAGAIN), "f() failed: code=1234567890");
}

#[test]
fn next_frame_status_maps_eagain_to_no_frame() {
    assert_eq!(next_frame_status(0, LINUX_EAGAIN).unwrap(), true);
    assert_eq!(next_frame_status(-11, LINUX_EAGAIN).unwrap(), false);
    let e = next_frame_status(-12, LINUX_EAGAIN).unwrap_err();
    assert_eq!(e.code(), -12);
    assert_eq!(e.function(), "dav1d_get_picture");
    // A positive EAGAIN is not the "no picture yet" answer.
    assert!(next_frame_status(11, LINUX_EAGAIN).is_err());
}

#[test]
fn next_frame_status_uses_the_platform_eagain() {
    assert_eq!(next_frame_status(-35, MACOS_EAGAIN).unwrap(), false);
    assert!(next_frame_status(-11, MACOS_EAGAIN).is_err());
    assert!(next_frame_status(-35, LINUX_EAGAIN).is_err());
}

#[test]
fn frame_delay_from_code_keeps_nonnegative_codes() {
    assert_eq!(frame_delay_from_code(1).unwrap(), 1);
    assert_eq!(frame_delay_from_code(8).unwrap(), 8);
    assert_eq!(frame_delay_from_code(0).unwrap(), 0);
    let e = frame_delay_from_code(-22).unwrap_err();
    assert_eq!(e.code(), -22);
    assert_eq!(e.function(), "dav1d_get_frame_delay");
}
