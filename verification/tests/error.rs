use cross_platform_tun::error::Error;

#[test]
fn every_plain_error_has_its_text() {
    assert_eq!(Error::InvalidConfig.message(), "invalid configuration");
    assert_eq!(Error::NotImplemented.message(), "not implementated");
    assert_eq!(Error::NameTooLong.message(), "device name too long");
    assert_eq!(Error::InvalidName.message(), "invalid device name");
    assert_eq!(Error::InvalidAddress.message(), "invalid address");
    assert_eq!(Error::UnsupportedLayer.message(), "unsuported network layer of operation");
    assert_eq!(Error::InvalidDescriptor.message(), "invalid file descriptor");
    assert_eq!(Error::InvalidQueuesNumber.message(), "invalid queues number");
}

#[test]
fn wrapped_errors_speak_for_themselves() {
    let io = std::io::Error::new(std::io::ErrorKind::Other, "boom");
    assert_eq!(Error::from(io).message(), "boom");
    let errno = nix::errno::Errno::EPERM;
    assert_eq!(Error::from(errno).message(), errno.to_string());
}

#[test]
fn wrapping_keeps_the_error() {
    assert!(matches!(Error::from(nix::errno::Errno::ENODEV), Error::NixError(nix::errno::Errno::ENODEV)));
    let io = std::io::Error::from_raw_os_error(2);
    assert!(matches!(Error::from(io), Error::Io(e) if e.raw_os_error() == Some(2)));
}
