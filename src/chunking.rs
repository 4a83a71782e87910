//! Boundary-aware chunking of VAD speech, with an overlap ring for continuity.
use vstd::prelude::*;

use crate::error::{create_error_context, AudioError, ErrorHandler};
use crate::features::{
    append_samples, copy_samples, slice_samples, valid_sample, valid_samples, Sample, FULL_SCALE,
};
use crate::dual::run_of;
use crate::vad::{
    no_totals, run_frames, sat_add64, VadMachine, VadPhase, wide_mul, BoundaryInfo, StreamingVadConfig, StreamingVadProcessor, VadStatistics,
    MIN_NOISE_FLOOR,
};

verus! {

/// Confidence that a target-length chunk needs when speech goes on, in parts per thousand.
pub const TARGET_CONFIDENCE: u32 = 400;

/// Confidence reported for chunks cut without the VAD.
pub const FALLBACK_CONFIDENCE: u32 = 300;

/// Settings of the chunker. The silence threshold is a level in sample units; the
/// confidence threshold is in parts per thousand.
#[derive(Clone, Copy, Debug)]
pub struct ChunkingConfig {
    pub min_chunk_duration_ms: u32,
    pub max_chunk_duration_ms: u32,
    pub target_chunk_duration_ms: u32,
    pub sample_rate: u32,
    pub overlap_duration_ms: u32,
    pub silence_threshold: u32,
    pub boundary_confidence_threshold: u32,
    pub force_chunk_on_silence_ms: u32,
    pub context_preservation_enabled: bool,
}

impl ChunkingConfig {
    /// Samples in `ms` milliseconds.
    pub open spec fn samples_in(&self, ms: int) -> int {
        ms * (self.sample_rate as int) / 1000
    }

    /// Milliseconds in `n` samples, rounded down.
    pub open spec fn duration_of(&self, n: int) -> int {
        n * 1000 / (self.sample_rate as int)
    }

    pub open spec fn max_samples(&self) -> int {
        self.samples_in(self.max_chunk_duration_ms as int)
    }

    pub open spec fn overlap_samples(&self) -> int {
        self.samples_in(self.overlap_duration_ms as int)
    }

    /// Sane settings: a sample rate the VAD takes, `min <= target <= max`, an overlap no
    /// longer than a chunk, and a maximum that is a whole number of samples.
    pub open spec fn wf(&self) -> bool {
        &&& 1000 <= self.sample_rate <= 1_000_000
        &&& self.min_chunk_duration_ms <= self.target_chunk_duration_ms
        &&& self.target_chunk_duration_ms <= self.max_chunk_duration_ms
        &&& 1 <= self.max_chunk_duration_ms
        &&& self.overlap_duration_ms <= self.max_chunk_duration_ms
        &&& ((self.max_chunk_duration_ms as int) * (self.sample_rate as int)) % 1000 == 0
        &&& self.max_samples() <= usize::MAX
    }

    /// 3 s minimum, 30 s maximum, 15 s target, 16 kHz, 500 ms overlap, silence level 33
    /// (0.001), confidence threshold 0.8, forced chunk after 8 s of silence, context kept.
    pub fn standard() -> (r: ChunkingConfig)
        ensures
            r.wf(),
            r.min_chunk_duration_ms == 3000,
            r.max_chunk_duration_ms == 30000,
            r.target_chunk_duration_ms == 15000,
            r.sample_rate == 16000,
            r.overlap_duration_ms == 500,
            r.boundary_confidence_threshold == 800,
            r.force_chunk_on_silence_ms == 8000,
            r.context_preservation_enabled,
    {
        ChunkingConfig {
            min_chunk_duration_ms: 3000,
            max_chunk_duration_ms: 30000,
            target_chunk_duration_ms: 15000,
            sample_rate: 16000,
            overlap_duration_ms: 500,
            silence_threshold: 33,
            boundary_confidence_threshold: 800,
            force_chunk_on_silence_ms: 8000,
            context_preservation_enabled: true,
        }
    }

    /// The VAD settings that a chunker with these settings runs.
    pub open spec fn vad_config_spec(&self) -> StreamingVadConfig {
        StreamingVadConfig {
            sample_rate: self.sample_rate as usize,
            frame_duration_ms: 30,
            redemption_time_ms: 200,
            pre_speech_pad_ms: 100,
            post_speech_pad_ms: 150,
            min_speech_duration_ms: 300,
            adaptive_threshold: true,
            energy_threshold: ((self.silence_threshold as u64) * 1000) as u64,
            zero_crossing_threshold: 100,
            pitch_detection_enabled: true,
        }
    }

    pub fn vad_config(&self) -> (r: StreamingVadConfig)
        requires
            self.wf(),
        ensures
            r == self.vad_config_spec(),
            r.wf(),
    {
        StreamingVadConfig {
            sample_rate: self.sample_rate as usize,
            frame_duration_ms: 30,
            redemption_time_ms: 200,
            pre_speech_pad_ms: 100,
            post_speech_pad_ms: 150,
            min_speech_duration_ms: 300,
            adaptive_threshold: true,
            energy_threshold: (self.silence_threshold as u64) * 1000,
            zero_crossing_threshold: 100,
            pitch_detection_enabled: true,
        }
    }
}

impl Default for ChunkingConfig {
    fn default() -> (r: ChunkingConfig)
        ensures
            r.wf(),
            r.sample_rate == 16000,
    {
        ChunkingConfig::standard()
    }
}

/// Why a chunk was cut.
#[derive(Clone, Copy, Debug, PartialEq, Eq, Structural)]
pub enum BoundaryType {
    SpeechEnd,
    Silence,
    MaxDuration,
    EnergyDrop,
    PitchChange,
    SentenceBoundary,
    PauseBoundary,
    /// Target length reached at a quiet or confident point.
    TimeoutBoundary,
    MaxDurationBoundary,
    SilenceBoundary,
    ManualBoundary,
    /// Cut by length alone because the VAD could not run.
    FallbackBoundary,
}

impl BoundaryType {
    pub open spec fn name(&self) -> Seq<char> {
        match self {
            BoundaryType::SpeechEnd => "SpeechEnd"@,
            BoundaryType::Silence => "Silence"@,
            BoundaryType::MaxDuration => "MaxDuration"@,
            BoundaryType::EnergyDrop => "EnergyDrop"@,
            BoundaryType::PitchChange => "PitchChange"@,
            BoundaryType::SentenceBoundary => "SentenceBoundary"@,
            BoundaryType::PauseBoundary => "PauseBoundary"@,
            BoundaryType::TimeoutBoundary => "TimeoutBoundary"@,
            BoundaryType::MaxDurationBoundary => "MaxDurationBoundary"@,
            BoundaryType::SilenceBoundary => "SilenceBoundary"@,
            BoundaryType::ManualBoundary => "ManualBoundary"@,
            BoundaryType::FallbackBoundary => "FallbackBoundary"@,
        }
    }

    /// The variant's name.
    pub fn to_string(&self) -> (r: String)
        ensures
            r@ == self.name(),
    {
        let s = match self {
            BoundaryType::SpeechEnd => "SpeechEnd",
            BoundaryType::Silence => "Silence",
            BoundaryType::MaxDuration => "MaxDuration",
            BoundaryType::EnergyDrop => "EnergyDrop",
            BoundaryType::PitchChange => "PitchChange",
            BoundaryType::SentenceBoundary => "SentenceBoundary",
            BoundaryType::PauseBoundary => "PauseBoundary",
            BoundaryType::TimeoutBoundary => "TimeoutBoundary",
            BoundaryType::MaxDurationBoundary => "MaxDurationBoundary",
            BoundaryType::SilenceBoundary => "SilenceBoundary",
            BoundaryType::ManualBoundary => "ManualBoundary",
            BoundaryType::FallbackBoundary => "FallbackBoundary",
        };
        String::from_str(s)
    }
}

/// Facts about a chunk. Times are milliseconds of audio; confidence is in parts per
/// thousand and levels in sample units.
#[derive(Clone, Copy, Debug)]
pub struct ChunkMetadata {
    pub chunk_id: u64,
    pub timestamp_ms: u64,
    pub duration_ms: u32,
    /// New samples in the chunk; the payload is the overlap, then these.
    pub new_samples: usize,
    pub sample_count: usize,
    pub has_speech_boundary: bool,
    pub confidence: u32,
    pub energy_level: u32,
    pub noise_floor: u64,
    pub context_frames: usize,
    pub is_silence_forced: bool,
    pub boundary_type: BoundaryType,
}

/// A chunk for the recognizer: overlap from the ring, then the new samples.
#[derive(Clone, Debug)]
pub struct AudioChunk {
    pub samples: Vec<Sample>,
    pub metadata: ChunkMetadata,
    /// Audio time at which the chunk's new samples begin.
    pub start_time_ms: u64,
    pub recording_start_time_ms: u64,
}

/// `n * 1000 / rate`: milliseconds in `n` samples at `rate`.
pub fn ms_of(n: u64, rate: u32) -> (r: u64)
    requires
        rate >= 1000,
    ensures
        r as int == (n as int) * 1000 / (rate as int),
        r <= n,
{
    let v = (n as u128) * 1000 / (rate as u128);
    assert(v <= n as int) by (nonlinear_arith)
        requires
            v == (n as int) * 1000 / (rate as int),
            rate >= 1000,
    ;
    v as u64
}

impl AudioChunk {
    /// The chunk's new samples: its payload without the overlap in front.
    pub open spec fn taken(&self) -> Seq<Sample> {
        self.samples@.subrange(
            self.samples@.len() - self.metadata.new_samples,
            self.samples@.len() as int,
        )
    }
}

/// Every sample of `s` clamped into range.
pub open spec fn clamp_all(s: Seq<Sample>) -> Seq<Sample> {
    Seq::new(s.len(), |i: int| clamp_to_range(s[i]))
}

/// The last `k` items of `s` (all of them if there are fewer).
pub open spec fn keep_last(s: Seq<Sample>, k: int) -> Seq<Sample> {
    if s.len() <= k {
        s
    } else {
        s.subrange(s.len() - k, s.len() as int)
    }
}

/// The rolling window of recent audio that supplies overlap.
pub struct ContextBuffer {
    samples: Vec<Sample>,
    max_context_samples: usize,
    overlap_samples: usize,
}

impl ContextBuffer {
    pub closed spec fn view(&self) -> Seq<Sample> {
        self.samples@
    }

    pub closed spec fn max_len(&self) -> usize {
        self.max_context_samples
    }

    pub closed spec fn overlap(&self) -> usize {
        self.overlap_samples
    }

    pub closed spec fn wf(&self) -> bool {
        self.samples@.len() <= self.max_context_samples
    }

    /// An empty ring of `max_duration_ms` with `overlap_duration_ms` of overlap.
    pub fn new(max_duration_ms: u32, overlap_duration_ms: u32, sample_rate: u32) -> (r: Self)
        requires
            (max_duration_ms as int) * (sample_rate as int) / 1000 <= usize::MAX,
            (overlap_duration_ms as int) * (sample_rate as int) / 1000 <= usize::MAX,
        ensures
            r.wf(),
            r.view().len() == 0,
            r.max_len() as int == (max_duration_ms as int) * (sample_rate as int) / 1000,
            r.overlap() as int == (overlap_duration_ms as int) * (sample_rate as int) / 1000,
    {
        let m = wide_mul(max_duration_ms as u64, sample_rate as u64) / 1000;
        let o = wide_mul(overlap_duration_ms as u64, sample_rate as u64) / 1000;
        ContextBuffer {
            samples: Vec::new(),
            max_context_samples: m as usize,
            overlap_samples: o as usize,
        }
    }

    /// Appends `new_samples`, keeping the newest `max_len` samples.
    pub fn add_samples(&mut self, new_samples: &[Sample])
        requires
            old(self).wf(),
        ensures
            final(self).wf(),
            final(self).view() == keep_last(old(self).view() + new_samples@, old(self).max_len() as int),
            final(self).max_len() == old(self).max_len(),
            final(self).overlap() == old(self).overlap(),
    {
        append_samples(&mut self.samples, new_samples);
        let n = self.samples.len();
        if n > self.max_context_samples {
            self.samples = slice_samples(self.samples.as_slice(), n - self.max_context_samples, n);
        }
    }

    /// The newest `overlap` samples.
    pub fn get_context_for_new_chunk(&self) -> (r: Vec<Sample>)
        ensures
            r@ == keep_last(self.view(), self.overlap() as int),
    {
        let n = self.samples.len();
        if n <= self.overlap_samples {
            let r = copy_samples(self.samples.as_slice());
            r
        } else {
            slice_samples(self.samples.as_slice(), n - self.overlap_samples, n)
        }
    }

    /// The overlap followed by `new_samples`; `new_samples` then join the ring.
    pub fn append_with_overlap(&mut self, new_samples: Vec<Sample>) -> (r: Vec<Sample>)
        requires
            old(self).wf(),
        ensures
            final(self).wf(),
            r@ == keep_last(old(self).view(), old(self).overlap() as int) + new_samples@,
            final(self).view() == keep_last(old(self).view() + new_samples@, old(self).max_len() as int),
            final(self).max_len() == old(self).max_len(),
            final(self).overlap() == old(self).overlap(),
    {
        let mut result = self.get_context_for_new_chunk();
        self.add_samples(new_samples.as_slice());
        append_samples(&mut result, new_samples.as_slice());
        result
    }

    pub fn len(&self) -> (r: usize)
        ensures
            r == self.view().len(),
    {
        self.samples.len()
    }

    /// Duration of the ring in milliseconds.
    pub fn duration_ms(&self, sample_rate: u32) -> (r: u64)
        requires
            sample_rate >= 1000,
        ensures
            r as int == (self.view().len() as int) * 1000 / (sample_rate as int),
    {
        ms_of(self.samples.len() as u64, sample_rate)
    }

    pub fn clear(&mut self)
        requires
            old(self).wf(),
        ensures
            final(self).wf(),
            final(self).view().len() == 0,
            final(self).max_len() == old(self).max_len(),
            final(self).overlap() == old(self).overlap(),
    {
        self.samples = Vec::new();
    }
}

/// The rule that cuts a chunk of `dur` milliseconds, if any, in this order: maximum
/// length; nothing below the minimum; a confident complete utterance; long silence; a
/// pause past two thirds of the target; the target length at a confident or quiet point.
pub open spec fn decide(
    cfg: ChunkingConfig,
    dur: int,
    vad: BoundaryInfo,
    confidence: u32,
    speaking: bool,
    silence_ms: int,
) -> Option<BoundaryType> {
    if dur >= cfg.max_chunk_duration_ms {
        Some(BoundaryType::MaxDurationBoundary)
    } else if dur < cfg.min_chunk_duration_ms {
        None
    } else if vad.is_complete_utterance && confidence >= cfg.boundary_confidence_threshold {
        Some(BoundaryType::SentenceBoundary)
    } else if silence_ms >= cfg.force_chunk_on_silence_ms {
        Some(BoundaryType::SilenceBoundary)
    } else if vad.sentence_boundary is Some && dur >= (cfg.target_chunk_duration_ms as int) * 2
        / 3 {
        Some(BoundaryType::PauseBoundary)
    } else if dur >= cfg.target_chunk_duration_ms && (confidence > TARGET_CONFIDENCE || !speaking) {
        Some(BoundaryType::TimeoutBoundary)
    } else {
        None
    }
}

/// Chunking statistics.
#[derive(Clone, Copy, Debug)]
pub struct ChunkingStatistics {
    pub total_chunks_created: u64,
    pub current_chunk_duration_ms: u64,
    pub current_chunk_samples: usize,
    pub total_processed_samples: u64,
    pub context_buffer_size: usize,
    pub vad_stats: VadStatistics,
}

/// Chunks cut from one call of `process_stream`, and the speech still gathering.
#[derive(Clone, Debug)]
pub struct ChunkedAudio {
    pub ready_chunks: Vec<AudioChunk>,
    pub partial_chunk: Option<Vec<Sample>>,
    pub statistics: ChunkingStatistics,
}

/// Gathers VAD speech and cuts it into chunks at speech boundaries.
pub struct IntelligentChunker {
    config: ChunkingConfig,
    vad_processor: StreamingVadProcessor,
    context_buffer: ContextBuffer,
    current_chunk: Vec<Sample>,
    chunk_id_counter: u64,
    silence_samples: u64,
    emitted_samples: u64,
    total_processed_samples: u64,
    error_handler: ErrorHandler,
}

/// `x`, clamped into the sample range.
pub open spec fn clamp_to_range(x: Sample) -> Sample {
    if x < -FULL_SCALE {
        (-FULL_SCALE) as Sample
    } else if x > FULL_SCALE {
        FULL_SCALE
    } else {
        x
    }
}

fn clamped(s: &[Sample]) -> (r: Vec<Sample>)
    ensures
        r@.len() == s@.len(),
        valid_samples(r@),
        forall|i: int| 0 <= i < s@.len() ==> #[trigger] r@[i] == clamp_to_range(s@[i]),
{
    let mut out: Vec<Sample> = Vec::new();
    let mut i: usize = 0;
    while i < s.len()
        invariant
            i <= s@.len(),
            out@.len() == i,
            forall|j: int| 0 <= j < i ==> #[trigger] out@[j] == clamp_to_range(s@[j]),
        decreases s@.len() - i,
    {
        let x = s[i];
        let v = if x < -FULL_SCALE {
            -FULL_SCALE
        } else if x > FULL_SCALE {
            FULL_SCALE
        } else {
            x
        };
        out.push(v);
        i = i + 1;
    }
    proof {
        assert forall|j: int| 0 <= j < out@.len() implies valid_sample(#[trigger] out@[j]) by {
            assert(out@[j] == clamp_to_range(s@[j]));
        }
    }
    out
}

fn all_valid(s: &[Sample]) -> (r: bool)
    ensures
        r == valid_samples(s@),
{
    let mut i: usize = 0;
    while i < s.len()
        invariant
            i <= s@.len(),
            forall|j: int| 0 <= j < i ==> valid_sample(#[trigger] s@[j]),
        decreases s@.len() - i,
    {
        if s[i] < -FULL_SCALE || s[i] > FULL_SCALE {
            assert(!valid_sample(s@[i as int]));
            return false;
        }
        i = i + 1;
    }
    true
}

impl IntelligentChunker {
    pub closed spec fn config_spec(&self) -> ChunkingConfig {
        self.config
    }

    /// Speech gathered for the next chunk.
    pub closed spec fn pending_speech(&self) -> Seq<Sample> {
        self.current_chunk@
    }

    /// Chunks cut so far; the next chunk gets this id.
    pub closed spec fn chunks_created(&self) -> u64 {
        self.chunk_id_counter
    }

    pub closed spec fn ring(&self) -> Seq<Sample> {
        self.context_buffer.view()
    }

    pub closed spec fn vad(&self) -> StreamingVadProcessor {
        self.vad_processor
    }

    pub closed spec fn wf(&self) -> bool {
        &&& self.config.wf()
        &&& self.vad_processor.wf()
        &&& self.vad_processor.config_spec() == self.config.vad_config_spec()
        &&& self.context_buffer.wf()
        &&& self.context_buffer.max_len() as int == self.config.max_samples()
        &&& self.context_buffer.overlap() as int == self.config.overlap_samples()
        &&& self.error_handler.wf()
        &&& valid_samples(self.current_chunk@)
    }

    /// The payload of a chunk cut from `taken` new samples: the ring's overlap first when
    /// context is kept.
    pub open spec fn payload(&self, taken: Seq<Sample>) -> Seq<Sample> {
        if self.config_spec().context_preservation_enabled {
            keep_last(self.ring(), self.config_spec().overlap_samples()) + taken
        } else {
            taken
        }
    }

    /// A chunker with empty state and a fresh VAD.
    pub fn new(config: ChunkingConfig) -> (r: Self)
        requires
            config.wf(),
        ensures
            r.wf(),
            r.config_spec() == config,
            r.pending_speech().len() == 0,
            r.chunks_created() == 0,
            r.ring().len() == 0,
    {
        let vad_config = config.vad_config();
        assert((config.overlap_duration_ms as int) * (config.sample_rate as int) / 1000
            <= (config.max_chunk_duration_ms as int) * (config.sample_rate as int) / 1000)
            by (nonlinear_arith)
            requires
                config.overlap_duration_ms <= config.max_chunk_duration_ms,
                config.sample_rate >= 0,
        ;
        let context_buffer = ContextBuffer::new(
            config.max_chunk_duration_ms,
            config.overlap_duration_ms,
            config.sample_rate,
        );
        IntelligentChunker {
            config,
            vad_processor: StreamingVadProcessor::new(vad_config),
            context_buffer,
            current_chunk: Vec::new(),
            chunk_id_counter: 0,
            silence_samples: 0,
            emitted_samples: 0,
            total_processed_samples: 0,
            error_handler: ErrorHandler::new(),
        }
    }

    /// Milliseconds of speech gathered so far.
    fn current_duration_ms(&self) -> (r: u64)
        requires
            self.wf(),
        ensures
            r as int == self.config.duration_of(self.current_chunk@.len() as int),
    {
        ms_of(self.current_chunk.len() as u64, self.config.sample_rate)
    }

    /// Cuts a chunk from the first `take` gathered samples; the rest stays.
    fn cut(
        &mut self,
        take: usize,
        boundary_type: BoundaryType,
        info: BoundaryInfo,
        confidence: u32,
        energy_level: u32,
        noise_floor: u64,
        recording_start_ms: u64,
    ) -> (r: AudioChunk)
        requires
            old(self).wf(),
            take <= old(self).current_chunk@.len(),
            old(self).chunk_id_counter < u64::MAX,
        ensures
            final(self).wf(),
            final(self).config == old(self).config,
            final(self).vad_processor == old(self).vad_processor,
            final(self).current_chunk@ == old(self).current_chunk@.subrange(
                take as int,
                old(self).current_chunk@.len() as int,
            ),
            final(self).chunk_id_counter == old(self).chunk_id_counter + 1,
            r.metadata.chunk_id == old(self).chunk_id_counter,
            r.metadata.boundary_type == boundary_type,
            old(self).config.duration_of(take as int) <= u32::MAX ==> r.metadata.duration_ms as int
                == old(self).config.duration_of(take as int),
            r.samples@ == old(self).payload(old(self).current_chunk@.subrange(0, take as int)),
            final(self).ring() == keep_last(
                old(self).ring() + old(self).current_chunk@.subrange(0, take as int),
                old(self).config.max_samples(),
            ),
            r.metadata.confidence == confidence,
            r.metadata.new_samples == take,
            r.recording_start_time_ms == recording_start_ms,
            final(self).silence_samples == 0,
    {
        let n = self.current_chunk.len();
        let taken = slice_samples(self.current_chunk.as_slice(), 0, take);
        let rest = slice_samples(self.current_chunk.as_slice(), take, n);
        proof {
            assert(valid_samples(rest@)) by {
                assert forall|i: int| 0 <= i < rest@.len() implies valid_sample(#[trigger] rest@[i]) by {
                    assert(rest@[i] == self.current_chunk@[take + i]);
                }
            }
        }
        let chunk_id = self.chunk_id_counter;
        self.chunk_id_counter = self.chunk_id_counter + 1;
        let sr = self.config.sample_rate;
        let emitted = self.emitted_samples;
        let duration = ((take as u128) * 1000 / (sr as u128));
        assert(duration <= (take as int)) by (nonlinear_arith)
            requires
                duration == (take as int) * 1000 / (sr as int),
                sr >= 1000,
        ;
        let start_ms = ((emitted as u128) * 1000 / (sr as u128));
        assert(start_ms <= emitted as int) by (nonlinear_arith)
            requires
                start_ms == (emitted as int) * 1000 / (sr as int),
                sr >= 1000,
        ;
        let final_samples = if self.config.context_preservation_enabled {
            self.context_buffer.append_with_overlap(taken)
        } else {
            self.context_buffer.add_samples(taken.as_slice());
            taken
        };
        self.current_chunk = rest;
        self.emitted_samples = self.emitted_samples.saturating_add(take as u64);
        self.silence_samples = 0;
        let metadata = ChunkMetadata {
            chunk_id,
            timestamp_ms: start_ms as u64,
            duration_ms: if duration > u32::MAX as u128 {
                u32::MAX
            } else {
                duration as u32
            },
            new_samples: take,
            sample_count: final_samples.len(),
            has_speech_boundary: info.is_complete_utterance,
            confidence,
            energy_level,
            noise_floor,
            context_frames: self.context_buffer.len(),
            is_silence_forced: boundary_type == BoundaryType::SilenceBoundary,
            boundary_type,
        };
        AudioChunk {
            samples: final_samples,
            metadata,
            start_time_ms: start_ms as u64,
            recording_start_time_ms: recording_start_ms,
        }
    }

    /// Speech that the VAD emits for `samples` in the chunker's current state.
    pub open spec fn vad_speech(&self, samples: Seq<Sample>) -> Seq<Sample> {
        run_of(self.vad(), samples).speech
    }

    /// Consecutive samples that the VAD and the level test found silent.
    pub closed spec fn silence_count(&self) -> u64 {
        self.silence_samples
    }

    /// The speech gathered once `samples` is fed: in-range samples add the VAD's speech,
    /// out-of-range ones add themselves, clamped.
    #[verifier::opaque]
    pub open spec fn gathered(&self, samples: Seq<Sample>) -> Seq<Sample> {
        if samples.len() == 0 {
            self.pending_speech()
        } else if valid_samples(samples) {
            self.pending_speech() + self.vad_speech(samples)
        } else {
            self.pending_speech() + clamp_all(samples)
        }
    }

    /// The boundary that feeding `samples` cuts at, if any. In-range samples follow
    /// `decide` on the VAD's report (nothing is cut from no speech); out-of-range ones cut
    /// at the maximum or, from the target length on, as a fallback.
    #[verifier::opaque]
    pub open spec fn decision(&self, samples: Seq<Sample>) -> Option<BoundaryType> {
        let cfg = self.config_spec();
        let g = self.gathered(samples);
        let dur = cfg.duration_of(g.len() as int);
        if samples.len() == 0 {
            None
        } else if valid_samples(samples) {
            let (m, rest, t) = run_frames(
                self.vad().config_spec(),
                self.vad().machine(),
                self.vad().pending() + samples,
                no_totals(),
            );
            let energy = if t.frames == 0 {
                0
            } else {
                t.level_sum / (t.frames as int)
            };
            let speaking = m.phase != VadPhase::Silent;
            let silence = if energy < cfg.silence_threshold && !speaking {
                sat_add64(self.silence_count(), samples.len() as int)
            } else {
                0
            };
            let d = decide(
                cfg,
                dur,
                t.last,
                t.last.confidence,
                speaking,
                (silence as int) * 1000 / (cfg.sample_rate as int),
            );
            if d == Some(BoundaryType::MaxDurationBoundary) || g.len() > 0 {
                d
            } else {
                None
            }
        } else if dur >= cfg.max_chunk_duration_ms {
            Some(BoundaryType::MaxDurationBoundary)
        } else if dur >= cfg.target_chunk_duration_ms && g.len() > 0 {
            Some(BoundaryType::FallbackBoundary)
        } else {
            None
        }
    }

    /// New samples that a cut at `b` takes from the gathered speech `g`.
    pub open spec fn cut_len(&self, b: BoundaryType, g: Seq<Sample>) -> int {
        if b == BoundaryType::MaxDurationBoundary {
            self.config_spec().max_samples()
        } else {
            g.len() as int
        }
    }

    /// Feeds `samples` and cuts a chunk where `decision` says. The chunk takes the front of
    /// the gathered speech (exactly the maximum at a maximum cut, all of it otherwise); the
    /// rest stays gathered. Its payload is the overlap, then the new samples.
    #[verifier::rlimit(80)]
    #[verifier::spinoff_prover]
    pub fn process_audio(&mut self, samples: &[Sample], recording_start_ms: u64) -> (r: Option<
        AudioChunk,
    >)
        requires
            old(self).wf(),
            old(self).chunks_created() < u64::MAX,
        ensures
            final(self).wf(),
            final(self).config_spec() == old(self).config_spec(),
            (r is Some) <==> (old(self).decision(samples@) is Some),
            r is None ==> final(self).ring() == old(self).ring() && final(self).chunks_created()
                == old(self).chunks_created() && final(self).pending_speech() == old(self).gathered(samples@),
            r is None && samples@.len() > 0 ==> old(self).config_spec().duration_of(
                final(self).pending_speech().len() as int,
            ) < old(self).config_spec().max_chunk_duration_ms,
            r matches Some(c) ==> {
                let g = old(self).gathered(samples@);
                let k = old(self).cut_len(c.metadata.boundary_type, g);
                &&& old(self).decision(samples@) == Some(c.metadata.boundary_type)
                &&& c.metadata.chunk_id == old(self).chunks_created()
                &&& final(self).chunks_created() == old(self).chunks_created() + 1
                &&& 0 < k <= g.len()
                &&& c.metadata.new_samples == k
                &&& c.samples@ == old(self).payload(g.subrange(0, k))
                &&& c.taken() == g.subrange(0, k)
                &&& final(self).pending_speech() == g.subrange(k, g.len() as int)
                &&& final(self).ring() == keep_last(
                    old(self).ring() + g.subrange(0, k),
                    old(self).config_spec().max_samples(),
                )
                &&& c.metadata.duration_ms as int == old(self).config_spec().duration_of(k)
                &&& old(self).config_spec().min_chunk_duration_ms <= c.metadata.duration_ms
                    <= old(self).config_spec().max_chunk_duration_ms
                &&& (c.metadata.boundary_type == BoundaryType::MaxDurationBoundary
                    ==> c.metadata.duration_ms == old(self).config_spec().max_chunk_duration_ms)
                &&& (c.metadata.boundary_type == BoundaryType::FallbackBoundary
                    ==> c.metadata.confidence == FALLBACK_CONFIDENCE)
            },
            samples@.len() > 0 && valid_samples(samples@) ==> ({
                let (m, rest, t) = run_frames(
                    old(self).vad().config_spec(),
                    old(self).vad().machine(),
                    old(self).vad().pending() + samples@,
                    no_totals(),
                );
                final(self).vad().machine() == m && final(self).vad().pending() == rest
            }),
            samples@.len() == 0 || !valid_samples(samples@) ==> final(self).vad() == old(self).vad(),
            samples@.len() > 0 ==> old(self).gathered(samples@) == old(self).pending_speech()
                + slice_add(
                old(self).vad().config_spec(),
                old(self).vad().machine(),
                old(self).vad().pending(),
                samples@,
            ),
            samples@.len() > 0 ==> (final(self).vad().machine(), final(self).vad().pending())
                == slice_state(
                old(self).vad().config_spec(),
                old(self).vad().machine(),
                old(self).vad().pending(),
                samples@,
            ),
            final(self).vad().config_spec() == old(self).vad().config_spec(),
            r matches Some(c) ==> old(self).gathered(samples@) == c.taken() + final(self).pending_speech(),
    {
        proof {
            reveal(IntelligentChunker::decision);
            reveal(IntelligentChunker::gathered);
            reveal(slice_add);
            reveal(slice_state);
        }
        if samples.len() == 0 {
            return None;
        }
        self.total_processed_samples = self.total_processed_samples.saturating_add(
            samples.len() as u64,
        );
        let sr = self.config.sample_rate;
        let cfg = self.config;
        if !all_valid(samples) {
            let err = AudioError::vad_processing_failed(samples.len(), "sample out of range");
            let ctx = create_error_context("intelligent_chunker", "vad_processing", None);
            let _action = self.error_handler.handle_error(err, ctx);
            let fixed = clamped(samples);
            proof {
                assert(fixed@ =~= clamp_all(samples@));
                crate::vad::lemma_valid_concat(self.current_chunk@, fixed@);
            }
            append_samples(&mut self.current_chunk, fixed.as_slice());
            proof {
                assert(self.current_chunk@ == old(self).gathered(samples@));
            }
            let dur = self.current_duration_ms();
            if dur >= cfg.max_chunk_duration_ms as u64 {
                let ghost s1 = *self;
                let c = self.cut_max(BoundaryType::MaxDurationBoundary, FALLBACK_CONFIDENCE, 0, MIN_NOISE_FLOOR, recording_start_ms);
                proof {
                    let t = s1.current_chunk@.subrange(0, s1.config.max_samples());
                    assert(s1.payload(t) == old(self).payload(t));
                    assert(c.samples@.subrange(c.samples@.len() - c.metadata.new_samples, c.samples@.len() as int) =~= t);
                }
                return Some(c);
            }
            if dur >= cfg.target_chunk_duration_ms as u64 && self.current_chunk.len() > 0 {
                let info = BoundaryInfo {
                    sentence_boundary: None,
                    is_complete_utterance: false,
                    confidence: FALLBACK_CONFIDENCE,
                    speech_probability: 0,
                };
                let n = self.current_chunk.len();
                let ghost s1 = *self;
                let c = self.cut(n, BoundaryType::FallbackBoundary, info, FALLBACK_CONFIDENCE, 0, MIN_NOISE_FLOOR, recording_start_ms);
                proof {
                    let t = s1.current_chunk@.subrange(0, n as int);
                    assert(t =~= s1.current_chunk@);
                    assert(s1.payload(t) == old(self).payload(t));
                    assert(c.samples@.subrange(c.samples@.len() - c.metadata.new_samples, c.samples@.len() as int) =~= t);
                    assert(s1.current_chunk@.subrange(n as int, n as int) =~= Seq::<Sample>::empty());
                    assert(cfg.duration_of(n as int) <= cfg.max_chunk_duration_ms);
                }
                return Some(c);
            }
            return None;
        }
        let res = self.vad_processor.process_stream(samples);
        proof {
            crate::vad::lemma_valid_concat(self.current_chunk@, res.speech@);
        }
        append_samples(&mut self.current_chunk, res.speech.as_slice());
        proof {
            assert(self.current_chunk@ == old(self).gathered(samples@));
        }
        let silent = res.energy_level < cfg.silence_threshold && !res.is_speaking;
        if silent {
            self.silence_samples = self.silence_samples.saturating_add(samples.len() as u64);
        } else {
            self.silence_samples = 0;
        }
        let dur = self.current_duration_ms();
        let silence_ms = ms_of(self.silence_samples, sr);
        if dur >= cfg.max_chunk_duration_ms as u64 {
            let ghost s1 = *self;
            let c = self.cut_max(BoundaryType::MaxDurationBoundary, res.confidence, res.energy_level, res.noise_floor, recording_start_ms);
            proof {
                let t = s1.current_chunk@.subrange(0, s1.config.max_samples());
                assert(s1.payload(t) == old(self).payload(t));
                assert(c.samples@.subrange(c.samples@.len() - c.metadata.new_samples, c.samples@.len() as int) =~= t);
            }
            return Some(c);
        }
        if dur < cfg.min_chunk_duration_ms as u64 {
            return None;
        }
        let info = res.boundary_info;
        let decision = if info.is_complete_utterance && res.confidence
            >= cfg.boundary_confidence_threshold {
            Some(BoundaryType::SentenceBoundary)
        } else if silence_ms >= cfg.force_chunk_on_silence_ms as u64 {
            Some(BoundaryType::SilenceBoundary)
        } else if info.sentence_boundary.is_some() && dur >= (cfg.target_chunk_duration_ms as u64)
            * 2 / 3 {
            Some(BoundaryType::PauseBoundary)
        } else if dur >= cfg.target_chunk_duration_ms as u64 && (res.confidence > TARGET_CONFIDENCE
            || !res.is_speaking) {
            Some(BoundaryType::TimeoutBoundary)
        } else {
            None
        };
        match decision {
            None => None,
            Some(b) => {
                let n = self.current_chunk.len();
                if n == 0 {
                    return None;
                }
                let ghost s1 = *self;
                let c = self.cut(n, b, info, res.confidence, res.energy_level, res.noise_floor, recording_start_ms);
                proof {
                    let t = s1.current_chunk@.subrange(0, n as int);
                    assert(t =~= s1.current_chunk@);
                    assert(s1.payload(t) == old(self).payload(t));
                    assert(c.samples@.subrange(c.samples@.len() - c.metadata.new_samples, c.samples@.len() as int) =~= t);
                    assert(s1.current_chunk@.subrange(n as int, n as int) =~= Seq::<Sample>::empty());
                }
                Some(c)
            },
        }
    }

    /// Cuts a chunk of exactly the maximum length from the front of the gathered speech.
    fn cut_max(
        &mut self,
        boundary_type: BoundaryType,
        confidence: u32,
        energy_level: u32,
        noise_floor: u64,
        recording_start_ms: u64,
    ) -> (r: AudioChunk)
        requires
            old(self).wf(),
            old(self).chunk_id_counter < u64::MAX,
            old(self).config.duration_of(old(self).current_chunk@.len() as int)
                >= old(self).config.max_chunk_duration_ms,
        ensures
            final(self).wf(),
            final(self).config == old(self).config,
            final(self).vad_processor == old(self).vad_processor,
            final(self).chunk_id_counter == old(self).chunk_id_counter + 1,
            r.metadata.chunk_id == old(self).chunk_id_counter,
            r.metadata.boundary_type == boundary_type,
            r.metadata.duration_ms == old(self).config.max_chunk_duration_ms,
            r.metadata.confidence == confidence,
            r.metadata.new_samples == old(self).config.max_samples(),
            0 < old(self).config.max_samples() <= old(self).current_chunk@.len(),
            old(self).config.duration_of(old(self).config.max_samples())
                == old(self).config.max_chunk_duration_ms,
            r.samples@ == old(self).payload(
                old(self).current_chunk@.subrange(0, old(self).config.max_samples()),
            ),
            final(self).current_chunk@ == old(self).current_chunk@.subrange(
                old(self).config.max_samples(),
                old(self).current_chunk@.len() as int,
            ),
            final(self).ring() == keep_last(
                old(self).ring() + old(self).current_chunk@.subrange(0, old(self).config.max_samples()),
                old(self).config.max_samples(),
            ),
    {
        let cfg = self.config;
        let m = wide_mul(cfg.max_chunk_duration_ms as u64, cfg.sample_rate as u64) / 1000;
        let n = self.current_chunk.len();
        proof {
            let len = n as int;
            let sr = cfg.sample_rate as int;
            let mx = cfg.max_chunk_duration_ms as int;
            assert(len >= m) by (nonlinear_arith)
                requires
                    len * 1000 / sr >= mx,
                    m as int == mx * sr / 1000,
                    (mx * sr) % 1000 == 0,
                    sr >= 1000,
            ;
            assert((m as int) * 1000 / sr == mx) by (nonlinear_arith)
                requires
                    m as int == mx * sr / 1000,
                    (mx * sr) % 1000 == 0,
                    sr >= 1000,
            ;
            assert(m > 0) by (nonlinear_arith)
                requires
                    m as int == mx * sr / 1000,
                    mx >= 1,
                    sr >= 1000,
            ;
        }
        let info = BoundaryInfo {
            sentence_boundary: None,
            is_complete_utterance: false,
            confidence,
            speech_probability: 0,
        };
        self.cut(m as usize, boundary_type, info, confidence, energy_level, noise_floor, recording_start_ms)
    }

    /// Cuts whatever speech is gathered as a `ManualBoundary` chunk, if there is any.
    pub fn force_chunk(&mut self, recording_start_ms: u64) -> (r: Option<AudioChunk>)
        requires
            old(self).wf(),
            old(self).chunks_created() < u64::MAX,
        ensures
            flush_step(*old(self), r, *final(self)),
    {
        let n = self.current_chunk.len();
        if n == 0 {
            return None;
        }
        let info = BoundaryInfo {
            sentence_boundary: None,
            is_complete_utterance: false,
            confidence: 500,
            speech_probability: 500,
        };
        let c = self.cut(n, BoundaryType::ManualBoundary, info, 500, 0, MIN_NOISE_FLOOR, recording_start_ms);
        proof {
            assert(old(self).current_chunk@.subrange(0, n as int) =~= old(self).current_chunk@);
        }
        Some(c)
    }

    pub fn get_statistics(&self) -> (r: ChunkingStatistics)
        requires
            self.wf(),
        ensures
            r.total_chunks_created == self.chunks_created(),
            r.current_chunk_samples == self.pending_speech().len(),
            r.context_buffer_size == self.ring().len(),
    {
        ChunkingStatistics {
            total_chunks_created: self.chunk_id_counter,
            current_chunk_duration_ms: self.current_duration_ms(),
            current_chunk_samples: self.current_chunk.len(),
            total_processed_samples: self.total_processed_samples,
            context_buffer_size: self.context_buffer.len(),
            vad_stats: self.vad_processor.get_statistics(),
        }
    }

    /// Takes new settings: the VAD restarts and the ring starts empty; gathered speech stays.
    pub fn update_config(&mut self, config: ChunkingConfig)
        requires
            old(self).wf(),
            config.wf(),
        ensures
            final(self).wf(),
            final(self).config_spec() == config,
            final(self).pending_speech() == old(self).pending_speech(),
            final(self).chunks_created() == old(self).chunks_created(),
            final(self).ring().len() == 0,
    {
        let vad_config = config.vad_config();
        assert((config.overlap_duration_ms as int) * (config.sample_rate as int) / 1000
            <= (config.max_chunk_duration_ms as int) * (config.sample_rate as int) / 1000)
            by (nonlinear_arith)
            requires
                config.overlap_duration_ms <= config.max_chunk_duration_ms,
                config.sample_rate >= 0,
        ;
        self.config = config;
        self.vad_processor.update_config(vad_config);
        self.context_buffer = ContextBuffer::new(
            config.max_chunk_duration_ms,
            config.overlap_duration_ms,
            config.sample_rate,
        );
    }

    /// Drops gathered speech, the ring and the VAD state; the chunk count stays.
    pub fn reset(&mut self)
        requires
            old(self).wf(),
        ensures
            final(self).wf(),
            final(self).config_spec() == old(self).config_spec(),
            final(self).pending_speech().len() == 0,
            final(self).ring().len() == 0,
            final(self).chunks_created() == old(self).chunks_created(),
    {
        self.current_chunk = Vec::new();
        self.silence_samples = 0;
        self.context_buffer.clear();
        self.vad_processor.reset();
        self.total_processed_samples = 0;
    }

    /// Feeds `samples` in slices of 100 ms and gathers the chunks cut. Chunk ids follow one
    /// another from the count before the call. The new samples of the chunks, then the speech
    /// still gathered, are the speech gathered before followed by what the slices added; when
    /// no chunk is cut, less than the maximum length is left gathered.
    #[verifier::rlimit(80)]
    #[verifier::spinoff_prover]
    pub fn process_stream(&mut self, samples: &[Sample], recording_start_ms: u64) -> (r: ChunkedAudio)
        requires
            old(self).wf(),
            old(self).chunks_created() + samples@.len() + 1 < u64::MAX,
        ensures
            stream_step(*old(self), samples@, r, *final(self)),
    {
        let step = (self.config.sample_rate / 10) as usize;
        let mut ready: Vec<AudioChunk> = Vec::new();
        let mut start: usize = 0;
        let ghost c0 = self.chunk_id_counter;
        let ghost cfg = self.config;
        let ghost vcfg = self.vad_processor.config_spec();
        let ghost total = self.current_chunk@ + speech_in_slices(
            vcfg,
            self.vad_processor.machine(),
            self.vad_processor.pending(),
            samples@,
            step as int,
        );
        proof {
            assert(samples@.subrange(0, samples@.len() as int) =~= samples@);
            assert(taken_all(ready@) + self.current_chunk@ =~= self.current_chunk@);
        }
        while start < samples.len()
            invariant
                self.wf(),
                self.config == cfg,
                self.vad_processor.config_spec() == vcfg,
                step >= 100,
                step as int == (cfg.sample_rate / 10) as int,
                start <= samples@.len(),
                c0 + samples@.len() + 1 < u64::MAX,
                self.chunk_id_counter == c0 + ready@.len(),
                ready@.len() <= start,
                forall|i: int|
                    0 <= i < ready@.len() ==> (#[trigger] ready@[i]).metadata.chunk_id == c0 + i,
                forall|i: int|
                    0 <= i < ready@.len() ==> cfg.min_chunk_duration_ms
                        <= (#[trigger] ready@[i]).metadata.duration_ms
                        <= cfg.max_chunk_duration_ms,
                total == taken_all(ready@) + self.current_chunk@ + speech_in_slices(
                    vcfg,
                    self.vad_processor.machine(),
                    self.vad_processor.pending(),
                    samples@.subrange(start as int, samples@.len() as int),
                    step as int,
                ),
                ready@.len() == 0 && start > 0 ==> cfg.duration_of(self.current_chunk@.len() as int)
                    < cfg.max_chunk_duration_ms,
            decreases samples@.len() - start,
        {
            let end = if samples.len() - start < step {
                samples.len()
            } else {
                start + step
            };
            let piece = slice_samples(samples, start, end);
            let ghost cur = samples@.subrange(start as int, samples@.len() as int);
            let ghost next = samples@.subrange(end as int, samples@.len() as int);
            let ghost before = *self;
            let ghost t0 = taken_all(ready@);
            proof {
                assert(cur.subrange(0, (end - start) as int) =~= piece@);
                assert(cur.subrange((end - start) as int, cur.len() as int) =~= next);
            }
            let out = self.process_audio(piece.as_slice(), recording_start_ms);
            proof {
                let g = before.gathered(piece@);
                let add = slice_add(
                    vcfg,
                    before.vad_processor.machine(),
                    before.vad_processor.pending(),
                    piece@,
                );
                let sn = speech_in_slices(
                    vcfg,
                    self.vad_processor.machine(),
                    self.vad_processor.pending(),
                    next,
                    step as int,
                );
                assert(speech_in_slices(
                    vcfg,
                    before.vad_processor.machine(),
                    before.vad_processor.pending(),
                    cur,
                    step as int,
                ) == add + sn);
                assert(g == before.current_chunk@ + add);
                assert(total =~= t0 + g + sn);
                if out is None {
                    assert(total =~= t0 + self.current_chunk@ + sn);
                }
            }
            match out {
                Some(c) => {
                    proof {
                        let g = before.gathered(piece@);
                        assert(g == c.taken() + self.current_chunk@);
                        assert((ready@.push(c)).drop_last() =~= ready@);
                    }
                    ready.push(c);
                    proof {
                        assert(taken_all(ready@) == t0 + ready@.last().taken());
                        let sn = speech_in_slices(
                            vcfg,
                            self.vad_processor.machine(),
                            self.vad_processor.pending(),
                            next,
                            step as int,
                        );
                        let g = before.gathered(piece@);
                        assert(total =~= taken_all(ready@) + self.current_chunk@ + sn);
                    }
                },
                None => {},
            }
            start = end;
        }
        proof {
            assert(samples@.subrange(start as int, samples@.len() as int) =~= Seq::<Sample>::empty());
            assert(taken_all(ready@) + self.current_chunk@ + Seq::<Sample>::empty()
                =~= taken_all(ready@) + self.current_chunk@);
        }
        let partial = if self.current_chunk.len() > 0 {
            Some(copy_samples(self.current_chunk.as_slice()))
        } else {
            None
        };
        let statistics = self.get_statistics();
        ChunkedAudio { ready_chunks: ready, partial_chunk: partial, statistics }
    }
}

/// One `process_stream` call: chunker `c0` fed `samples` gives `r` and becomes `c1`. Chunk
/// ids follow one another, durations lie within the bounds, the chunks' new samples followed
/// by the speech still gathered are the speech gathered before followed by what the 100 ms
/// slices added, and when no chunk is cut less than the maximum length stays gathered.
pub open spec fn stream_step(
    c0: IntelligentChunker,
    samples: Seq<Sample>,
    r: ChunkedAudio,
    c1: IntelligentChunker,
) -> bool {
    let cfg = c0.config_spec();
    &&& c1.wf()
    &&& c1.config_spec() == cfg
    &&& c1.chunks_created() == c0.chunks_created() + r.ready_chunks@.len()
    &&& forall|i: int|
        0 <= i < r.ready_chunks@.len() ==> (#[trigger] r.ready_chunks@[i]).metadata.chunk_id
            == c0.chunks_created() + i
    &&& forall|i: int|
        0 <= i < r.ready_chunks@.len() ==> cfg.min_chunk_duration_ms
            <= (#[trigger] r.ready_chunks@[i]).metadata.duration_ms
            <= cfg.max_chunk_duration_ms
    &&& c0.pending_speech() + speech_in_slices(
        c0.vad().config_spec(),
        c0.vad().machine(),
        c0.vad().pending(),
        samples,
        (cfg.sample_rate / 10) as int,
    ) == taken_all(r.ready_chunks@) + c1.pending_speech()
    &&& r.ready_chunks@.len() == 0 && samples.len() > 0 ==> cfg.duration_of(
        c1.pending_speech().len() as int,
    ) < cfg.max_chunk_duration_ms
    &&& (r.partial_chunk is Some <==> c1.pending_speech().len() > 0)
    &&& (r.partial_chunk matches Some(p) ==> p@ == c1.pending_speech())
}

/// One `force_chunk` call: with speech gathered, all of it is cut as a `ManualBoundary`
/// chunk whose payload is the overlap then that speech; with none, nothing is cut.
pub open spec fn flush_step(c0: IntelligentChunker, r: Option<AudioChunk>, c1: IntelligentChunker) -> bool {
    &&& c1.wf()
    &&& c1.config_spec() == c0.config_spec()
    &&& (c0.pending_speech().len() == 0 <==> r is None)
    &&& r is None ==> c1.ring() == c0.ring() && c1.chunks_created() == c0.chunks_created()
    &&& r matches Some(c) ==> {
        &&& c.metadata.chunk_id == c0.chunks_created()
        &&& c1.chunks_created() == c0.chunks_created() + 1
        &&& c.metadata.boundary_type == BoundaryType::ManualBoundary
        &&& c.samples@ == c0.payload(c0.pending_speech())
        &&& c1.ring() == keep_last(
            c0.ring() + c0.pending_speech(),
            c0.config_spec().max_samples(),
        )
        &&& c1.pending_speech().len() == 0
    }
}

/// The speech that one slice adds for a VAD in state `m` with `vpend` waiting: the VAD's
/// speech for in-range samples, the samples themselves (clamped) otherwise.
#[verifier::opaque]
pub open spec fn slice_add(
    vcfg: StreamingVadConfig,
    m: VadMachine,
    vpend: Seq<Sample>,
    piece: Seq<Sample>,
) -> Seq<Sample> {
    if valid_samples(piece) {
        run_frames(vcfg, m, vpend + piece, no_totals()).2.speech
    } else {
        clamp_all(piece)
    }
}

/// The VAD state (machine, waiting samples) after one slice; out-of-range slices leave it.
#[verifier::opaque]
pub open spec fn slice_state(
    vcfg: StreamingVadConfig,
    m: VadMachine,
    vpend: Seq<Sample>,
    piece: Seq<Sample>,
) -> (VadMachine, Seq<Sample>) {
    if valid_samples(piece) {
        let r = run_frames(vcfg, m, vpend + piece, no_totals());
        (r.0, r.1)
    } else {
        (m, vpend)
    }
}

/// The speech that feeding `samples` in slices of `step` adds, starting from a VAD in state
/// `m` with `vpend` waiting.
pub open spec fn speech_in_slices(
    vcfg: StreamingVadConfig,
    m: VadMachine,
    vpend: Seq<Sample>,
    samples: Seq<Sample>,
    step: int,
) -> Seq<Sample>
    decreases samples.len(),
{
    if samples.len() == 0 || step <= 0 {
        Seq::empty()
    } else {
        let k = if samples.len() < step {
            samples.len() as int
        } else {
            step
        };
        let piece = samples.subrange(0, k);
        let st = slice_state(vcfg, m, vpend, piece);
        slice_add(vcfg, m, vpend, piece) + speech_in_slices(
            vcfg,
            st.0,
            st.1,
            samples.subrange(k, samples.len() as int),
            step,
        )
    }
}

/// The new samples of `cs`, in order.
pub open spec fn taken_all(cs: Seq<AudioChunk>) -> Seq<Sample>
    decreases cs.len(),
{
    if cs.len() == 0 {
        Seq::empty()
    } else {
        taken_all(cs.drop_last()) + cs.last().taken()
    }
}

/// Consecutive chunks overlap: when context is kept and a chunk holds at least `ov`
/// samples, its last `ov` samples are the first `ov` of the next chunk. Here `ring` is the
/// ring before the first chunk, `a` and `b` the new samples of the two chunks.
pub proof fn lemma_overlap_continuity(ring: Seq<Sample>, a: Seq<Sample>, b: Seq<Sample>, ov: int, max: int)
    requires
        0 <= ov <= max,
        (keep_last(ring, ov) + a).len() >= ov,
    ensures
        ({
            let first = keep_last(ring, ov) + a;
            let second = keep_last(keep_last(ring + a, max), ov) + b;
            first.subrange(first.len() - ov, first.len() as int) == second.subrange(0, ov)
        }),
{
    let first = keep_last(ring, ov) + a;
    let ring1 = keep_last(ring + a, max);
    let second = keep_last(ring1, ov) + b;
    let ra = ring + a;
    assert(ra.len() >= ov);
    assert(ring1.len() >= ov);
    let t = keep_last(ring1, ov);
    assert(t.len() == ov);
    assert forall|i: int| 0 <= i < ov implies first[first.len() - ov + i] == #[trigger] t[i] by {
        assert(t[i] == ring1[ring1.len() - ov + i]);
        assert(ring1[ring1.len() - ov + i] == ra[ra.len() - ov + i]);
        let k = ra.len() - ov + i;
        if k >= ring.len() {
            assert(ra[k] == a[k - ring.len()]);
            assert(first[first.len() - ov + i] == a[k - ring.len()]);
        } else {
            assert(ra[k] == ring[k]);
            let kr = keep_last(ring, ov);
            let p = kr.len() + a.len() - ov + i;
            assert(0 <= p < kr.len());
            assert(first[first.len() - ov + i] == kr[p]);
            assert(kr[p] == ring[ring.len() - kr.len() + p]);
        }
    }
    assert(first.subrange(first.len() - ov, first.len() as int) =~= second.subrange(0, ov));
}

} // verus!
