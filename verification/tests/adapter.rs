use bytes::{Bytes, BytesMut};
use cross_platform_tun::adapter::{
    frame_size, framed_codec, Decision, Operation, PollState, Signal, DEFAULT_FRAME_SIZE,
};
use cross_platform_tun::codec::TunPacket;
use cross_platform_tun::platform::Platform;
use std::io::{Error, ErrorKind};

#[test]
fn operation_begins_waiting() {
    assert_eq!(Operation::new().state(), PollState::WaitReadiness);
}

#[test]
fn not_ready_suspends_without_an_attempt() {
    let mut op = Operation::new();
    assert!(matches!(op.step::<usize>(Signal::NotReady), Decision::Suspend));
    assert_eq!(op.state(), PollState::WaitReadiness);
    // Polled again and again, it stays where it is.
    assert!(matches!(op.step::<usize>(Signal::NotReady), Decision::Suspend));
    assert_eq!(op.state(), PollState::WaitReadiness);
}

#[test]
fn pending_write_completes_once_writable() {
    let mut op = Operation::new();
    assert!(matches!(op.step::<usize>(Signal::NotReady), Decision::Suspend));
    assert!(matches!(op.step::<usize>(Signal::Ready), Decision::Attempt));
    assert_eq!(op.state(), PollState::AttemptIo);
    assert!(matches!(op.step(Signal::Finished(Ok(42usize))), Decision::Complete(Ok(42))));
    assert_eq!(op.state(), PollState::WaitReadiness);
}

#[test]
fn would_block_clears_readiness_and_waits_again() {
    let mut op = Operation::new();
    assert!(matches!(op.step::<usize>(Signal::Ready), Decision::Attempt));
    assert!(matches!(op.step::<usize>(Signal::WouldBlock), Decision::ClearReadiness));
    assert_eq!(op.state(), PollState::WaitReadiness);
    assert!(matches!(op.step::<usize>(Signal::NotReady), Decision::Suspend));
    assert!(matches!(op.step::<usize>(Signal::Ready), Decision::Attempt));
    assert!(matches!(op.step(Signal::Finished(Ok(7usize))), Decision::Complete(Ok(7))));
}

#[test]
fn hard_error_completes_at_once() {
    let mut op = Operation::new();
    assert!(matches!(op.step::<usize>(Signal::Ready), Decision::Attempt));
    let d = op.step::<usize>(Signal::Finished(Err(Error::from_raw_os_error(5))));
    assert!(matches!(d, Decision::Complete(Err(e)) if e.raw_os_error() == Some(5)));
    assert_eq!(op.state(), PollState::WaitReadiness);
}

#[test]
fn reactor_failure_completes_without_an_attempt() {
    let mut op = Operation::new();
    let d = op.step::<()>(Signal::ReadinessFailed(Error::new(ErrorKind::Other, "gone")));
    assert!(matches!(d, Decision::Complete(Err(e)) if e.to_string() == "gone"));
    assert_eq!(op.state(), PollState::WaitReadiness);
}

#[test]
fn signal_out_of_turn_is_handed_back() {
    let mut op = Operation::new();
    assert!(matches!(
        op.step(Signal::Finished(Ok(1usize))),
        Decision::Refused(Signal::Finished(Ok(1)))
    ));
    assert!(matches!(op.step::<usize>(Signal::WouldBlock), Decision::Refused(Signal::WouldBlock)));
    assert_eq!(op.state(), PollState::WaitReadiness);
    assert!(matches!(op.step::<usize>(Signal::Ready), Decision::Attempt));
    assert!(matches!(op.step::<usize>(Signal::Ready), Decision::Refused(Signal::Ready)));
    assert!(matches!(op.step::<usize>(Signal::NotReady), Decision::Refused(Signal::NotReady)));
    assert_eq!(op.state(), PollState::AttemptIo);
}

#[test]
fn shutdown_succeeds_at_once() {
    assert!(matches!(Operation::shutdown(), Decision::Complete(Ok(()))));
}

#[test]
fn frame_size_defaults_to_1504() {
    assert_eq!(DEFAULT_FRAME_SIZE, 1504);
    assert_eq!(frame_size(None), 1504);
}

#[test]
fn frame_size_of_a_known_mtu_allows_for_the_header() {
    assert_eq!(frame_size(Some(1400)), 1404);
    assert_eq!(frame_size(Some(1500)), 1504);
    assert_eq!(frame_size(Some(0)), 4);
    assert_eq!(frame_size(Some(-1)), 3);
    assert_eq!(frame_size(Some(i32::MAX)), i32::MAX as i64 + 4);
    assert_eq!(frame_size(Some(i32::MIN)), i32::MIN as i64 + 4);
}

#[test]
fn framed_codec_is_made_for_any_mtu() {
    for mtu in [None, Some(0), Some(-5), Some(i32::MAX), Some(i32::MIN)] {
        let mut codec = framed_codec(true, mtu, Platform::Linux);
        let mut buf = BytesMut::from(&[0u8, 0, 8, 0, 0x45, 1][..]);
        let p = codec.decode(&mut buf).unwrap().unwrap();
        assert_eq!(p.get_bytes(), &[0x45u8, 1]);
        assert!(buf.is_empty());
    }
}

#[test]
fn framed_codec_takes_the_queue_s_header_choice() {
    let mut with = framed_codec(true, Some(1400), Platform::Linux);
    let mut buf = BytesMut::new();
    with.encode(TunPacket::new(Bytes::from_static(&[0x45, 1])), &mut buf).unwrap();
    assert_eq!(&buf[..], &[0u8, 0, 8, 0, 0x45, 1]);
    let mut without = framed_codec(false, None, Platform::Linux);
    let mut buf = BytesMut::new();
    without.encode(TunPacket::new(Bytes::from_static(&[0x45, 1])), &mut buf).unwrap();
    assert_eq!(&buf[..], &[0x45u8, 1]);
}
