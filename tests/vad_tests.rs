use live_transcribe::dual::{mix_channels, DualChannelVad};
use live_transcribe::features::{rms_level_of, Sample, FULL_SCALE};
use live_transcribe::vad::{SpeechBoundaryDetector, StreamingVadConfig, StreamingVadProcessor};

fn sine(n: usize, amplitude: f32) -> Vec<Sample> {
    (0..n)
        .map(|i| ((i as f32 * 0.1).sin() * amplitude * FULL_SCALE as f32) as Sample)
        .collect()
}

#[test]
fn test_streaming_vad_basic() {
    let config = StreamingVadConfig::default();
    let mut vad = StreamingVadProcessor::new(config);
    let silence = vec![0; 480];
    let result = vad.process_stream(&silence);
    assert!(!result.is_speaking);
    let speech = sine(480, 0.1);
    let result = vad.process_stream(&speech);
    assert!(result.energy_level > 0);
}

#[test]
fn test_boundary_detector() {
    let mut detector = SpeechBoundaryDetector::new(16000, 30);
    let samples = sine(480, 0.1);
    let boundaries = detector.detect_boundaries(&samples);
    assert!(boundaries.confidence > 0);
}

#[test]
fn rms_of_known_signals() {
    assert_eq!(rms_level_of(&[0, 0, 0, 0]), 0);
    assert_eq!(rms_level_of(&[100, -100, 100, -100]), 100);
    assert_eq!(rms_level_of(&[3, 4]), 3);
    assert_eq!(rms_level_of(&[FULL_SCALE, -FULL_SCALE]), FULL_SCALE as u32);
}

#[test]
fn onset_carries_pre_speech_padding() {
    let config = StreamingVadConfig::default();
    let mut vad = StreamingVadProcessor::new(config);
    let quiet: Vec<Sample> = (0..480 * 20).map(|i| if i % 2 == 0 { 10 } else { -10 }).collect();
    let r = vad.process_stream(&quiet);
    assert!(r.speech.is_empty());
    // the energy window needs four loud frames before speech is likely
    let loud = sine(480 * 4, 0.1);
    let r = vad.process_stream(&loud);
    assert!(r.is_speaking);
    // ten frames of padding (300 ms at 30 ms per frame) from the ring, then the onset frame
    assert_eq!(r.speech.len(), 480 * 11);
    assert_eq!(&r.speech[..480 * 7], &quiet[quiet.len() - 480 * 7..]);
    assert_eq!(&r.speech[480 * 7..], &loud[..]);
}

#[test]
fn reset_replays_identically() {
    let config = StreamingVadConfig::default();
    let mut stream: Vec<Sample> = vec![0; 4800];
    stream.extend(sine(9600, 0.2));
    stream.extend(vec![0; 16000]);
    let mut vad = StreamingVadProcessor::new(config);
    let first = vad.process_stream(&stream);
    vad.reset();
    let mut fresh = StreamingVadProcessor::new(config);
    let a = vad.process_stream(&stream);
    let b = fresh.process_stream(&stream);
    assert_eq!(a.speech, b.speech);
    assert_eq!(a.boundary_info, b.boundary_info);
    assert_eq!(a.speech, first.speech);
}

#[test]
fn pure_silence_yields_no_speech() {
    let mut vad = StreamingVadProcessor::new(StreamingVadConfig::default());
    for _ in 0..50 {
        let r = vad.process_stream(&vec![0; 1600]);
        assert!(r.speech.is_empty());
        assert!(!r.is_speaking);
    }
}

#[test]
fn mix_stays_in_range() {
    let mic = vec![FULL_SCALE; 100];
    let spk = vec![FULL_SCALE; 50];
    let mixed = mix_channels(&mic, &spk);
    assert_eq!(mixed.len(), 100);
    assert!(mixed.iter().all(|&x| x >= -FULL_SCALE && x <= FULL_SCALE));
    assert_eq!(mixed[0], FULL_SCALE);
    let neg = mix_channels(&vec![-FULL_SCALE; 10], &vec![-FULL_SCALE; 10]);
    assert!(neg.iter().all(|&x| x == -FULL_SCALE));
}

#[test]
fn mix_gains_follow_levels() {
    // mic far stronger: 0.8 / 0.4
    let mixed = mix_channels(&[1000, 1000], &[100, 100]);
    assert_eq!(mixed, vec![840, 840]);
    // balanced: 0.6 / 0.7
    let mixed = mix_channels(&[1000], &[1000]);
    assert_eq!(mixed, vec![1300]);
    // loopback far stronger: 0.4 / 0.8, rounding toward zero
    let mixed = mix_channels(&[-5], &[-1000]);
    assert_eq!(mixed, vec![-802]);
}

#[test]
fn mixed_audio_preferred_when_confident() {
    let mut dual = DualChannelVad::new(16000);
    let mic = sine(16000, 0.014);
    let loopback = sine(16000, 0.14);
    let out = dual.process_dual_channel(&mic, &loopback);
    // the mixed VAD's speech replaces the two channels' concatenation
    assert!(!out.is_empty());
    assert!(out.len() <= 16000);
}

#[test]
fn long_inputs_have_a_level() {
    let long = vec![200; 100_000];
    assert_eq!(rms_level_of(&long), 200);
    let mixed = mix_channels(&long, &vec![0; 10]);
    assert_eq!(mixed.len(), 100_000);
}
