use xattr_shim::reply::{SizeReply, StatusReply};

const ENODATA: i32 = 61;
const EEXIST: i32 = 17;
const ENOENT: i32 = 2;
const EACCES: i32 = 13;
const E2BIG: i32 = 7;

#[test]
fn reported_size_is_returned_as_signed() {
    assert_eq!(SizeReply::from_outcome(Ok(5)), SizeReply { size: 5, errno: None });
    assert_eq!(SizeReply::from_outcome(Ok(0)), SizeReply { size: 0, errno: None });
    assert_eq!(SizeReply::from_outcome(Ok(4096)), SizeReply { size: 4096, errno: None });
    assert_eq!(
        SizeReply::from_outcome(Ok(isize::MAX as usize)),
        SizeReply { size: isize::MAX, errno: None }
    );
}

#[test]
fn failed_size_call_returns_minus_one_with_code() {
    assert_eq!(SizeReply::from_outcome(Err(ENODATA)), SizeReply { size: -1, errno: Some(ENODATA) });
    assert_eq!(SizeReply::from_outcome(Err(ENOENT)), SizeReply { size: -1, errno: Some(ENOENT) });
    assert_eq!(SizeReply::from_outcome(Err(EACCES)), SizeReply { size: -1, errno: Some(EACCES) });
}

#[test]
fn successful_status_call_returns_zero() {
    assert_eq!(StatusReply::from_outcome(Ok(())), StatusReply { status: 0, errno: None });
}

#[test]
fn failed_status_call_returns_minus_one_with_code() {
    assert_eq!(StatusReply::from_outcome(Err(EEXIST)), StatusReply { status: -1, errno: Some(EEXIST) });
    assert_eq!(StatusReply::from_outcome(Err(ENODATA)), StatusReply { status: -1, errno: Some(ENODATA) });
    assert_eq!(StatusReply::from_outcome(Err(E2BIG)), StatusReply { status: -1, errno: Some(E2BIG) });
}

#[test]
fn removing_a_missing_attribute_is_never_silent() {
    let reply = StatusReply::from_outcome(Err(ENODATA));
    assert_eq!(reply.status, -1);
    assert_eq!(reply.errno, Some(ENODATA));
    assert_ne!(reply, StatusReply::from_outcome(Ok(())));
}

#[test]
fn error_codes_match_the_platform() {
    assert_eq!(ENODATA, libc::ENODATA);
    assert_eq!(EEXIST, libc::EEXIST);
    assert_eq!(ENOENT, rustix::io::Errno::NOENT.raw_os_error());
    assert_eq!(EACCES, rustix::io::Errno::ACCESS.raw_os_error());
    assert_eq!(E2BIG, rustix::io::Errno::TOOBIG.raw_os_error());
}
