use live_transcribe::chunking::{BoundaryType, ChunkingConfig, ContextBuffer, IntelligentChunker};
use live_transcribe::features::{Sample, FULL_SCALE};

fn sine(n: usize, amplitude: f32) -> Vec<Sample> {
    (0..n)
        .map(|i| ((i as f32 * 0.1).sin() * amplitude * FULL_SCALE as f32) as Sample)
        .collect()
}

#[test]
fn test_intelligent_chunker_basic() {
    let config = ChunkingConfig::default();
    let mut chunker = IntelligentChunker::new(config);
    let samples = sine(16000, 0.1);
    let result = chunker.process_audio(&samples, 0);
    assert!(result.is_none());
    for _ in 0..5 {
        let result = chunker.process_audio(&samples, 0);
        if result.is_some() {
            let chunk = result.unwrap();
            assert!(chunk.metadata.duration_ms >= 1000);
            break;
        }
    }
}

#[test]
fn test_force_chunk() {
    let config = ChunkingConfig::default();
    let mut chunker = IntelligentChunker::new(config);
    let samples = sine(8000, 0.1);
    chunker.process_audio(&samples, 0);
    let result = chunker.force_chunk(0);
    assert!(result.is_some());
    let chunk = result.unwrap();
    assert_eq!(chunk.metadata.boundary_type, BoundaryType::ManualBoundary);
    assert!(chunk.samples.len() > 0);
}

#[test]
fn test_silence_forced_chunking() {
    let mut config = ChunkingConfig::default();
    config.force_chunk_on_silence_ms = 100;
    config.min_chunk_duration_ms = 50;
    let mut chunker = IntelligentChunker::new(config);
    let speech = sine(1600, 0.1);
    chunker.process_audio(&speech, 0);
    let silence = vec![0; 1600];
    for _ in 0..3 {
        if let Some(chunk) = chunker.process_audio(&silence, 0) {
            assert!(matches!(
                chunk.metadata.boundary_type,
                BoundaryType::SilenceBoundary | BoundaryType::TimeoutBoundary
            ));
            break;
        }
    }
}

#[test]
fn test_context_buffer() {
    let mut buffer = ContextBuffer::new(1000, 200, 16000);
    let samples1: Vec<Sample> = (0..8000).collect();
    let samples2: Vec<Sample> = (8000..16000).collect();
    buffer.add_samples(&samples1);
    assert_eq!(buffer.len(), 8000);
    let context = buffer.get_context_for_new_chunk();
    assert!(context.len() <= 3200);
    let with_overlap = buffer.append_with_overlap(samples2);
    assert!(with_overlap.len() > 8000);
}

#[test]
fn test_chunking_statistics() {
    let config = ChunkingConfig::default();
    let chunker = IntelligentChunker::new(config);
    let stats = chunker.get_statistics();
    assert_eq!(stats.total_chunks_created, 0);
    assert_eq!(stats.current_chunk_samples, 0);
    assert_eq!(stats.total_processed_samples, 0);
}

#[test]
fn context_buffer_keeps_newest_and_overlaps_exactly() {
    let mut buffer = ContextBuffer::new(1, 1, 1000);
    buffer.add_samples(&[1, 2, 3]);
    assert_eq!(buffer.len(), 1);
    assert_eq!(buffer.get_context_for_new_chunk(), vec![3]);
    assert_eq!(buffer.append_with_overlap(vec![4, 5]), vec![3, 4, 5]);
    assert_eq!(buffer.get_context_for_new_chunk(), vec![5]);
}

#[test]
fn long_tone_is_cut_at_the_maximum() {
    let mut config = ChunkingConfig::default();
    config.min_chunk_duration_ms = 1000;
    config.target_chunk_duration_ms = 3000;
    config.max_chunk_duration_ms = 3000;
    let mut chunker = IntelligentChunker::new(config);
    let tone = sine(16000 * 8, 0.3);
    let out = chunker.process_stream(&tone, 0);
    assert!(!out.ready_chunks.is_empty());
    for c in &out.ready_chunks {
        assert_eq!(c.metadata.boundary_type, BoundaryType::MaxDurationBoundary);
        assert_eq!(c.metadata.duration_ms, 3000);
    }
}

#[test]
fn chunk_ids_follow_one_another() {
    let mut config = ChunkingConfig::default();
    config.min_chunk_duration_ms = 500;
    config.target_chunk_duration_ms = 1000;
    config.max_chunk_duration_ms = 1000;
    let mut chunker = IntelligentChunker::new(config);
    let tone = sine(16000 * 5, 0.3);
    let out = chunker.process_stream(&tone, 0);
    assert!(out.ready_chunks.len() >= 3);
    for (i, c) in out.ready_chunks.iter().enumerate() {
        assert_eq!(c.metadata.chunk_id, i as u64);
        assert!(c.metadata.duration_ms >= 500 && c.metadata.duration_ms <= 1000);
    }
    assert_eq!(chunker.get_statistics().total_chunks_created, out.ready_chunks.len() as u64);
}

#[test]
fn consecutive_chunks_overlap() {
    let mut config = ChunkingConfig::default();
    config.min_chunk_duration_ms = 500;
    config.target_chunk_duration_ms = 1000;
    config.max_chunk_duration_ms = 1000;
    config.overlap_duration_ms = 100;
    let mut chunker = IntelligentChunker::new(config);
    let tone = sine(16000 * 5, 0.3);
    let out = chunker.process_stream(&tone, 0);
    let ov = 1600;
    for pair in out.ready_chunks.windows(2) {
        let a = &pair[0].samples;
        let b = &pair[1].samples;
        assert_eq!(&a[a.len() - ov..], &b[..ov]);
    }
}

#[test]
fn pure_silence_never_makes_chunks() {
    let mut chunker = IntelligentChunker::new(ChunkingConfig::default());
    let silence = vec![0; 16000];
    for _ in 0..40 {
        let out = chunker.process_stream(&silence, 0);
        assert!(out.ready_chunks.is_empty());
        assert!(out.partial_chunk.is_none());
    }
}

#[test]
fn out_of_range_samples_fall_back() {
    let mut config = ChunkingConfig::default();
    config.min_chunk_duration_ms = 100;
    config.target_chunk_duration_ms = 200;
    config.max_chunk_duration_ms = 1000;
    let mut chunker = IntelligentChunker::new(config);
    let wild = vec![FULL_SCALE * 2; 3200];
    let c = chunker.process_audio(&wild, 0).unwrap();
    assert_eq!(c.metadata.boundary_type, BoundaryType::FallbackBoundary);
    assert_eq!(c.metadata.duration_ms, 200);
    assert!(c.samples.iter().all(|&x| x == FULL_SCALE));
}

#[test]
fn boundary_names() {
    assert_eq!(BoundaryType::ManualBoundary.to_string(), "ManualBoundary");
    assert_eq!(BoundaryType::MaxDurationBoundary.to_string(), "MaxDurationBoundary");
}
