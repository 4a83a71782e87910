use live_transcribe::error::{
    backoff_delay_ms, create_error_context, AudioError, ChannelErrorType, ErrorHandler,
    ErrorRecoveryAction, ErrorRecoveryStrategy,
};

#[test]
fn test_error_count_tracking() {
    let mut handler = ErrorHandler::new();
    for i in 0..5 {
        let error = AudioError::channel_closed(&format!("test_channel_{}", i));
        let context = create_error_context("test_component", "send", None);
        handler.handle_error(error, context);
    }
    let error_count = handler.get_error_count(&"test_component".to_string());
    assert_eq!(error_count, 5);
}

#[test]
fn test_recovery_strategy_override() {
    let mut handler = ErrorHandler::new();
    handler.set_recovery_strategy("test_component".to_string(), ErrorRecoveryStrategy::Stop);
    let error = AudioError::buffer_overflow(1000, 1500);
    let context = create_error_context("test_component", "push", None);
    let action = handler.handle_error(error, context);
    match action {
        ErrorRecoveryAction::Stop => {}
        _ => panic!("Unexpected recovery action"),
    }
}

#[test]
fn test_error_statistics() {
    let mut handler = ErrorHandler::new();
    for component in ["comp1", "comp2", "comp3"] {
        for i in 0..3 {
            let error = AudioError::channel_closed(&format!("{}_{}", component, i));
            let context = create_error_context(component, "test", None);
            handler.handle_error(error, context);
        }
    }
    let stats = handler.get_error_statistics();
    assert_eq!(stats.total_errors, 9);
    assert_eq!(stats.component_errors.len(), 3);
}

#[test]
fn device_errors_retry_with_backoff_then_escalate() {
    let mut handler = ErrorHandler::new();
    let mut actions = Vec::new();
    for _ in 0..4 {
        let error = AudioError::device_disconnected("mic");
        let context = create_error_context("device", "connect", None);
        actions.push(handler.handle_error(error, context));
    }
    assert_eq!(actions[0], ErrorRecoveryAction::Retry { delay_ms: 2000, attempt: 1 });
    assert_eq!(actions[1], ErrorRecoveryAction::Retry { delay_ms: 4000, attempt: 2 });
    assert_eq!(actions[2], ErrorRecoveryAction::Retry { delay_ms: 8000, attempt: 3 });
    assert_eq!(actions[3], ErrorRecoveryAction::Escalate);
}

#[test]
fn unknown_component_degrades_gracefully() {
    let mut handler = ErrorHandler::new();
    let error = AudioError::device_disconnected("test_device");
    let context = create_error_context("audio_stream", "connect", None);
    let action = handler.handle_error(error, context);
    assert_eq!(
        action,
        ErrorRecoveryAction::Continue { with_degradation: true, fallback_enabled: false }
    );
}

#[test]
fn vad_errors_continue_with_fallback() {
    let mut handler = ErrorHandler::new();
    let action = handler.handle_error(
        AudioError::vad_processing_failed(480, "bad frame"),
        create_error_context("vad", "process_frame", None),
    );
    assert_eq!(
        action,
        ErrorRecoveryAction::Continue { with_degradation: true, fallback_enabled: true }
    );
}

#[test]
fn backoff_caps_exponent_at_ten() {
    assert_eq!(backoff_delay_ms(500, 0), 500);
    assert_eq!(backoff_delay_ms(500, 3), 4000);
    assert_eq!(backoff_delay_ms(1, 10), 1024);
    assert_eq!(backoff_delay_ms(1, 25), 1024);
    assert_eq!(backoff_delay_ms(u64::MAX, 2), u64::MAX);
}

#[test]
fn history_is_bounded_and_recent_first() {
    let mut handler = ErrorHandler::new();
    for i in 0..1005u64 {
        let error = AudioError::Timeout { message: format!("t{}", i), duration_ms: i };
        handler.handle_error(error, create_error_context("x", "y", None));
    }
    let stats = handler.get_error_statistics();
    assert_eq!(stats.error_history_size, 1000);
    assert_eq!(stats.recent_errors, 100);
    let recent = handler.get_recent_errors(2);
    assert_eq!(recent.len(), 2);
    assert_eq!(recent[0].0.message(), "t1004");
    assert_eq!(recent[1].0.message(), "t1003");
}

#[test]
fn reset_and_failure_threshold() {
    let mut handler = ErrorHandler::new();
    let comp = "buffer".to_string();
    for _ in 0..3 {
        handler.handle_error(AudioError::buffer_overflow(1, 2), create_error_context("buffer", "push", None));
    }
    assert!(handler.is_component_failed(&comp, 3));
    handler.reset_error_count(&comp);
    assert_eq!(handler.get_error_count(&comp), 0);
    assert!(!handler.is_component_failed(&comp, 1));
}

#[test]
fn error_messages_are_exact() {
    let e = AudioError::device_disconnected("test_device");
    assert_eq!(e.message(), "Device 'test_device' disconnected");
    let e = AudioError::buffer_overflow(1000, 1500);
    assert_eq!(e.message(), "Buffer overflow: size 1000 exceeded by 1500");
    let e = AudioError::processing_timeout(480, 10000);
    assert_eq!(e.message(), "Processing timeout after 10000ms for 480 samples");
    assert!(matches!(e, AudioError::Timeout { duration_ms: 10000, .. }));
    let e = AudioError::transcription_failed(0, "x");
    assert_eq!(e.message(), "Transcription failed for 0 samples: x");
    let e = AudioError::chunk_processing_failed(12, "y");
    assert_eq!(e.message(), "Chunk processing failed for 12 samples: y");
    let e = AudioError::channel_closed("mic");
    match e {
        AudioError::Channel { message, error_type } => {
            assert_eq!(message, "Channel 'mic' closed unexpectedly");
            assert_eq!(error_type, ChannelErrorType::Closed);
        }
        _ => panic!("wrong variant"),
    }
    let e = AudioError::channel_send_failed("boom".to_string());
    assert!(matches!(e, AudioError::Channel { error_type: ChannelErrorType::SendFailed, .. }));
    let e = AudioError::vad_processing_failed(7, "z");
    assert!(matches!(e, AudioError::VadProcessing { samples_lost: 7, .. }));
}

#[test]
fn statistics_follow_the_counts() {
    let mut handler = ErrorHandler::new();
    for _ in 0..2 {
        handler.handle_error(AudioError::channel_closed("a"), create_error_context("alpha", "x", None));
    }
    handler.handle_error(AudioError::channel_closed("b"), create_error_context("beta", "x", None));
    let stats = handler.get_error_statistics();
    assert_eq!(stats.total_errors, 3);
    for (name, count) in &stats.component_errors {
        assert_eq!(*count, handler.get_error_count(name));
    }
}
