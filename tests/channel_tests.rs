use live_transcribe::channel::{ChannelState, HealthMonitor, ManagedChannel, RecoveryStrategy};

fn channel(capacity: usize) -> ManagedChannel<u32> {
    ManagedChannel::new(capacity, RecoveryStrategy::Disabled, "test_channel".to_string())
}

#[test]
fn unsubscribed_sends_are_buffered_in_order() {
    let mut ch = channel(2);
    for i in 1..=5u32 {
        ch.send(i).unwrap();
    }
    assert_eq!(ch.buffered_len(), 4);
    assert_eq!(ch.overflow_events(), 1);
    let drained = ch.drain_buffered();
    assert_eq!(drained, vec![2, 3, 4, 5]);
    assert_eq!(ch.buffered_len(), 0);
}

#[test]
fn subscribed_sends_are_delivered() {
    let mut ch = channel(16);
    let mut rx = ch.subscribe().unwrap();
    ch.send(42).unwrap();
    assert_eq!(rx.try_recv().unwrap(), 42);
    assert_eq!(ch.buffered_len(), 0);
    assert_eq!(ch.state(), ChannelState::Active);
    assert!(ch.is_healthy());
}

#[test]
fn recovery_after_backoff_restores_an_active_healthy_channel() {
    let mut ch = channel(8);
    for _ in 0..3 {
        ch.record_error();
    }
    assert!(!ch.is_healthy());
    assert_eq!(ch.state(), ChannelState::Failed);
    assert!(ch.initiate_recovery_at(2_000).is_ok());
    assert_eq!(ch.state(), ChannelState::Active);
    assert!(ch.is_healthy());
    assert_eq!(ch.get_health().recovery_attempts, 1);
    let mut rx = ch.subscribe().unwrap();
    assert!(ch.send(7).is_ok());
    assert_eq!(rx.try_recv().unwrap(), 7);
    assert!(ch.get_health().is_healthy);
    assert!(ch.initiate_recovery_at(3_999).is_err());
    assert!(ch.initiate_recovery_at(4_000).is_ok());
}

#[test]
fn closed_channel_stays_closed() {
    let mut ch = channel(4);
    ch.close();
    assert_eq!(ch.state(), ChannelState::Closed);
    assert!(ch.send(1).is_err());
    assert!(ch.subscribe().is_err());
    assert!(ch.initiate_recovery_at(1_000_000).is_err());
    ch.record_error();
    ch.record_error();
    ch.record_error();
    assert_eq!(ch.state(), ChannelState::Closed);
    assert!(ch.send_with_backpressure(9).is_ok());
    assert_eq!(ch.state(), ChannelState::Closed);
    assert_eq!(ch.buffered_len(), 1);
}

#[test]
fn health_monitor_backoff() {
    let mut m = HealthMonitor::new_at(0);
    assert!(m.should_attempt_recovery_at(1_000));
    m.record_recovery_attempt_at(1_000);
    assert!(!m.should_attempt_recovery_at(2_999));
    assert!(m.should_attempt_recovery_at(3_000));
    for _ in 0..10 {
        m.record_recovery_attempt_at(10);
    }
    assert_eq!(m.recovery_attempts, 11);
    assert!(!m.should_attempt_recovery_at(u64::MAX));
}

#[test]
fn health_monitor_errors_and_activity() {
    let mut m = HealthMonitor::new_at(100);
    m.record_error();
    m.record_error();
    assert!(m.is_healthy());
    m.record_error();
    assert!(!m.is_healthy());
    m.record_activity_at(500);
    assert!(m.is_healthy());
    assert_eq!(m.error_count, 0);
    assert_eq!(m.time_since_last_activity_at(700), 200);
    assert_eq!(m.time_since_last_activity_at(300), 0);
}
