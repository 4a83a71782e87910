use live_transcribe::asr::{
    aggregate_segments, trim_text, DriverAction, EngineEvent, EngineSegment,
    StreamingWhisperConfig, StreamingWhisperService, TemperatureScheduler,
};
use live_transcribe::chunking::{AudioChunk, BoundaryType, ChunkMetadata};

fn chunk(id: u64, samples: Vec<i32>) -> AudioChunk {
    AudioChunk {
        metadata: ChunkMetadata {
            chunk_id: id,
            timestamp_ms: 0,
            duration_ms: 0,
            new_samples: samples.len(),
            sample_count: samples.len(),
            has_speech_boundary: false,
            confidence: 800,
            energy_level: 0,
            noise_floor: 0,
            context_frames: 0,
            is_silence_forced: false,
            boundary_type: BoundaryType::PauseBoundary,
        },
        samples,
        start_time_ms: 0,
        recording_start_time_ms: 0,
    }
}

fn segments(text: &str) -> Vec<EngineSegment> {
    vec![EngineSegment { text: text.to_string(), t0: 0, t1: 150 }]
}

fn run(
    service: &mut StreamingWhisperService,
    c: &AudioChunk,
    engine: &dyn Fn(u32) -> Option<String>,
) -> DriverAction {
    let (mut session, mut action) = service.begin_transcription(c);
    loop {
        match action {
            DriverAction::Infer { temperature, .. } => {
                let event = match engine(temperature) {
                    Some(text) => EngineEvent::Segments { segments: segments(&text), elapsed_ms: 10 },
                    None => EngineEvent::EngineError { message: "rigged".to_string(), elapsed_ms: 10 },
                };
                action = service.on_engine_event(&mut session, event);
            }
            done => return done,
        }
    }
}

#[test]
fn retries_climb_the_temperature_schedule() {
    let mut config = StreamingWhisperConfig::standard();
    config.base_temperature = 0;
    config.temperature_increment = 200;
    config.max_temperature = 600;
    let mut service = StreamingWhisperService::new(config);
    let c = chunk(0, vec![1; 1600]);
    let engine = |t: u32| if t < 400 { None } else { Some(format!("hello at {}", t)) };
    match run(&mut service, &c, &engine) {
        DriverAction::Done(r) => {
            assert_eq!(r.retry_count, 2);
            assert_eq!(r.temperature_used, 400);
            assert_eq!(r.text, "hello at 400");
            assert!(!r.has_context);
        }
        other => panic!("unexpected {:?}", other),
    }
}

#[test]
fn context_carries_into_the_next_chunk() {
    let mut config = StreamingWhisperConfig::standard();
    config.context_overlap_samples = 4;
    let mut service = StreamingWhisperService::new(config);
    let engine = |_t: u32| Some(" first words ".to_string());
    let c0 = chunk(0, vec![1, 2, 3, 4, 5, 6]);
    let r0 = run(&mut service, &c0, &engine);
    assert!(matches!(r0, DriverAction::Done(ref r) if r.text == "first words"));
    let c1 = chunk(1, vec![9, 9]);
    let (session, _) = service.begin_transcription(&c1);
    assert_eq!(session.audio, vec![3, 4, 5, 6, 9, 9]);
    assert_eq!(session.prompt, "first words");
    assert!(session.has_context);
    assert_eq!(session.language.as_deref(), Some("en"));
    assert!(session.timestamps);
}

#[test]
fn exhausted_retries_fail_the_chunk() {
    let mut config = StreamingWhisperConfig::standard();
    config.max_retries = 2;
    let mut service = StreamingWhisperService::new(config);
    let c = chunk(3, vec![0; 10]);
    let engine = |_t: u32| None;
    assert!(matches!(run(&mut service, &c, &engine), DriverAction::Failed(_)));
    assert_eq!(service.get_statistics().error_count, 1);
}

#[test]
fn slow_attempts_time_out() {
    let mut service = StreamingWhisperService::new(StreamingWhisperConfig::standard());
    let c = chunk(0, vec![0; 10]);
    let (mut session, _) = service.begin_transcription(&c);
    let action = service.on_engine_event(
        &mut session,
        EngineEvent::EngineError { message: "slow".to_string(), elapsed_ms: 10_001 },
    );
    assert!(matches!(action, DriverAction::Failed(_)));
}

#[test]
fn blank_segments_lower_confidence() {
    let segs = vec![
        EngineSegment { text: " a".to_string(), t0: 0, t1: 10 },
        EngineSegment { text: "   ".to_string(), t0: 10, t1: 20 },
    ];
    let r = aggregate_segments(&segs, true);
    assert_eq!(r.confidence, 400);
    assert_eq!(r.text, "a");
    assert_eq!(r.segments.len(), 1);
    assert_eq!(r.segments[0].end_ms, 100);
    let r = aggregate_segments(&vec![], true);
    assert_eq!(r.confidence, 0);
}

#[test]
fn scheduler_and_trim() {
    let mut s = TemperatureScheduler::new(0, 200, 500);
    assert_eq!(s.get_temperature(), 0);
    assert_eq!(s.next_retry(), 200);
    assert_eq!(s.next_retry(), 400);
    assert_eq!(s.next_retry(), 500);
    s.reset();
    assert_eq!(s.get_temperature(), 0);
    assert_eq!(trim_text("\t hi there \n"), "hi there");
    assert_eq!(trim_text("   "), "");
}
