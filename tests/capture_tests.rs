use live_transcribe::capture::{
    downmix, scale_i16, scale_i32, scale_i8, CaptureAction, CaptureState, StreamErrorKind,
};
use live_transcribe::channel::{ChannelState, ManagedChannel, RecoveryStrategy};

#[test]
fn stream_errors_follow_the_policy() {
    let mut s = CaptureState::new();
    assert_eq!(s.on_stream_error(StreamErrorKind::PermissionDenied), CaptureAction::ContinueDegraded);
    assert!(!s.is_disconnected());
    assert_eq!(s.on_stream_error(StreamErrorKind::BufferUnderrun), CaptureAction::RestartStream);
    assert!(s.is_disconnected());
    assert_eq!(s.restart_requests, 1);
    assert_eq!(s.on_stream_error(StreamErrorKind::Other), CaptureAction::AwaitRecovery);
    assert_eq!(s.restart_requests, 1);
}

#[test]
fn stop_is_idempotent_and_closes_the_channel() {
    let mut ch: ManagedChannel<Vec<i32>> =
        ManagedChannel::new(4, RecoveryStrategy::Disabled, "mic".to_string());
    let mut s = CaptureState::new();
    assert!(s.stop(&mut ch));
    assert_eq!(ch.state(), ChannelState::Closed);
    assert!(!s.stop(&mut ch));
    assert_eq!(s.on_stream_error(StreamErrorKind::Timeout), CaptureAction::Ignore);
    assert!(s.attempt_recovery(&mut ch, 1_000_000).is_err());
}

#[test]
fn recovery_reconnects() {
    let mut ch: ManagedChannel<Vec<i32>> =
        ManagedChannel::new(4, RecoveryStrategy::Disabled, "mic".to_string());
    let mut s = CaptureState::new();
    s.on_stream_error(StreamErrorKind::DeviceNotAvailable);
    assert!(s.attempt_recovery(&mut ch, 5_000).is_ok());
    assert!(!s.is_disconnected());
    assert_eq!(ch.state(), ChannelState::Active);
}

#[test]
fn integer_formats_scale_and_downmix() {
    assert_eq!(scale_i16(&[-32768, 0, 32767]), vec![-32768, 0, 32767]);
    assert_eq!(scale_i32(&[i32::MIN, -1, 65536 * 3 + 5]), vec![-32768, -1, 3]);
    assert_eq!(scale_i8(&[-128, 1]), vec![-32768, 256]);
    assert_eq!(downmix(&[10, 20, -7, 0, 5], 2), vec![15, -3]);
    assert_eq!(downmix(&[1, 2, 3], 1), vec![1, 2, 3]);
}

#[test]
fn many_channels_downmix() {
    let data: Vec<i32> = (0..4000).map(|i| if i % 2 == 0 { 100 } else { -50 }).collect();
    assert_eq!(downmix(&data, 2000), vec![25, 25]);
}
