use cross_platform_tun::error::Error;
use cross_platform_tun::platform::posix::{iov_count, transferred, Fd};

#[test]
fn negative_handle_is_no_descriptor() {
    assert!(matches!(Fd::new(-1), Err(Error::InvalidDescriptor)));
    assert!(matches!(Fd::new(i32::MIN), Err(Error::InvalidDescriptor)));
}

#[test]
fn valid_handle_is_kept() {
    assert_eq!(Fd::new(0).unwrap().as_raw_fd(), 0);
    assert_eq!(Fd::new(7).unwrap().as_raw_fd(), 7);
    assert_eq!(Fd::new(i32::MAX).unwrap().as_raw_fd(), i32::MAX);
}

#[test]
fn nonblocking_sets_the_bit_and_blocking_clears_it() {
    let mask = 0o4000;
    assert_eq!(Fd::nonblocking_flags(0o2, mask, true), 0o4002);
    assert_eq!(Fd::nonblocking_flags(0o4002, mask, true), 0o4002);
    assert_eq!(Fd::nonblocking_flags(0o4002, mask, false), 0o2);
    assert_eq!(Fd::nonblocking_flags(0o2, mask, false), 0o2);
    assert_eq!(Fd::nonblocking_flags(0x8405, 0x4, false), 0x8401);
    assert_eq!(Fd::nonblocking_flags(-1, mask, false), !mask);
}

#[test]
fn negative_return_is_a_failure() {
    assert_eq!(transferred(-1), None);
    assert_eq!(transferred(isize::MIN), None);
    assert_eq!(transferred(0), Some(0));
    assert_eq!(transferred(1500), Some(1500));
}

#[test]
fn buffer_count_is_capped() {
    assert_eq!(iov_count(0), 0);
    assert_eq!(iov_count(3), 3);
    assert_eq!(iov_count(i32::MAX as usize), i32::MAX);
    assert_eq!(iov_count(i32::MAX as usize + 1), i32::MAX);
    assert_eq!(iov_count(usize::MAX), i32::MAX);
}
