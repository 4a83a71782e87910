use live_transcribe::asr::{DriverAction, EngineEvent, EngineSegment};
use live_transcribe::chunking::{AudioChunk, BoundaryType};
use live_transcribe::error::ErrorRecoveryAction;
use live_transcribe::features::{Sample, FULL_SCALE};
use live_transcribe::manager::{
    AudioSource, ContextManagerConfig, ContextManagerEvent, ModelInfo, ModelProblem, ModelStatus,
    StreamingTranscriptionContextManager,
};

fn sine(n: usize, amplitude: f32) -> Vec<Sample> {
    (0..n)
        .map(|i| ((i as f32 * 0.1).sin() * amplitude * FULL_SCALE as f32) as Sample)
        .collect()
}

fn transcribe(
    m: &mut StreamingTranscriptionContextManager,
    source: AudioSource,
    chunk: &AudioChunk,
    text: &str,
) -> bool {
    let (mut session, mut action) = m.begin_transcription(source, chunk);
    loop {
        match action {
            DriverAction::Infer { .. } => {
                let event = EngineEvent::Segments {
                    segments: vec![EngineSegment { text: text.to_string(), t0: 0, t1: 100 }],
                    elapsed_ms: 5,
                };
                action = m.on_engine_event(source, &mut session, event);
            }
            DriverAction::Done(result) => return m.emit_transcription(source, result, 5),
            DriverAction::Failed(_) => return false,
        }
    }
}

fn started() -> StreamingTranscriptionContextManager {
    let mut m = StreamingTranscriptionContextManager::new(ContextManagerConfig::standard());
    m.model_loaded("base".to_string());
    assert!(m.start().is_ok());
    m
}

#[test]
fn test_context_manager_lifecycle() {
    let m = StreamingTranscriptionContextManager::new(ContextManagerConfig::standard());
    let status = m.get_status();
    assert!(!status.is_active, "Manager should start inactive");
    assert!(status.current_model.is_none());
    assert_eq!(status.audio_sources.len(), 2);
}

#[test]
fn start_needs_a_model_and_is_not_repeated() {
    let mut m = StreamingTranscriptionContextManager::new(ContextManagerConfig::standard());
    assert!(m.start().is_err());
    m.model_loaded("base".to_string());
    assert!(m.start().is_ok());
    assert!(m.start().is_err());
}

#[test]
fn model_plan_follows_the_engine_listing() {
    let m = StreamingTranscriptionContextManager::new(ContextManagerConfig::standard());
    let listing = |status| vec![ModelInfo { name: "base".to_string(), status }];
    assert_eq!(m.model_plan(&listing(ModelStatus::Available)).unwrap(), Some("base".to_string()));
    assert_eq!(m.model_plan(&listing(ModelStatus::Missing)).unwrap_err(), ModelProblem::NeedsDownload);
    assert_eq!(m.model_plan(&listing(ModelStatus::Other)).unwrap_err(), ModelProblem::NotReady);
    assert_eq!(m.model_plan(&vec![]).unwrap_err(), ModelProblem::NotFound);
}

#[test]
fn two_speaker_alternation() {
    let mut m = started();
    let mut mic = sine(16000, 0.1);
    mic.extend(vec![0; 16000]);
    mic.extend(sine(16000, 0.1));
    let loopback = vec![0; 48000];
    let mut chunks = m.chunk_source_audio(AudioSource::Microphone, &mic).ready_chunks;
    let spk = m.chunk_source_audio(AudioSource::Speaker, &loopback);
    assert!(spk.ready_chunks.is_empty());
    let (flushed, none) = m.begin_stop();
    assert!(none.is_none());
    chunks.push(flushed.unwrap());
    assert!(chunks.len() >= 2);
    for (i, c) in chunks.iter().enumerate() {
        assert!(c.metadata.duration_ms >= 1000 && c.metadata.duration_ms <= 3000);
        assert!(transcribe(&mut m, AudioSource::Microphone, c, &format!("words {}", i)));
    }
    m.finish_stop();
    let events = m.take_events();
    let ready: Vec<_> = events
        .iter()
        .filter_map(|e| match e {
            ContextManagerEvent::TranscriptionReady(r) => Some(r),
            _ => None,
        })
        .collect();
    assert!(ready.len() >= 2);
    for r in &ready {
        assert_eq!(r.source, "microphone");
    }
    for w in ready.windows(2) {
        assert!(w[0].sequence_id < w[1].sequence_id);
    }
    assert!(!ready[0].transcription.has_context);
    assert!(ready[1].transcription.has_context);
}

#[test]
fn manual_flush_on_stop() {
    let mut m = started();
    let speech = sine(16000, 0.1);
    let out = m.chunk_source_audio(AudioSource::Microphone, &speech);
    assert!(out.ready_chunks.is_empty());
    assert!(out.partial_chunk.is_some());
    m.take_events();
    let (flushed, _) = m.begin_stop();
    let chunk = flushed.unwrap();
    assert_eq!(chunk.metadata.boundary_type, BoundaryType::ManualBoundary);
    assert!(transcribe(&mut m, AudioSource::Microphone, &chunk, "last words"));
    m.finish_stop();
    let events = m.take_events();
    assert_eq!(events.len(), 2);
    match &events[0] {
        ContextManagerEvent::TranscriptionReady(r) => {
            assert_eq!(r.transcription.boundary_type, BoundaryType::ManualBoundary)
        }
        other => panic!("unexpected {:?}", other),
    }
    match &events[1] {
        ContextManagerEvent::StatusUpdate(s) => assert!(!s.is_active),
        other => panic!("unexpected {:?}", other),
    }
    let more = m.chunk_source_audio(AudioSource::Microphone, &sine(16000, 0.1));
    for c in &more.ready_chunks {
        assert!(!transcribe(&mut m, AudioSource::Microphone, c, "late"));
    }
    assert!(m.take_events().is_empty());
}

#[test]
fn stop_then_start_keeps_the_observable_status() {
    let mut m = started();
    let before = m.get_status();
    m.begin_stop();
    m.finish_stop();
    assert!(m.start().is_ok());
    let after = m.get_status();
    assert_eq!(before.is_active, after.is_active);
    assert_eq!(before.current_model, after.current_model);
    let names = |s: &live_transcribe::manager::ContextManagerStatus| {
        s.audio_sources.iter().map(|a| a.name.clone()).collect::<Vec<_>>()
    };
    assert_eq!(names(&before), names(&after));
}

#[test]
fn processing_errors_are_announced() {
    let mut m = started();
    m.take_events();
    m.record_processing_error(
        AudioSource::Speaker,
        "boom".to_string(),
        ErrorRecoveryAction::Retry { delay_ms: 10, attempt: 1 },
    );
    let events = m.take_events();
    assert!(matches!(
        &events[0],
        ContextManagerEvent::ProcessingError { recoverable: true, source, .. } if source == "speaker"
    ));
    assert_eq!(m.get_status().processing_stats.error_rate, 1000);
}
