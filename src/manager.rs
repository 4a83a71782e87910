//! The composition root: two source pipelines, the mixed VAD, the model lifecycle,
//! statistics and the events that callers see.
//!
//! Capture, engine calls and task scheduling stay with the caller; this type decides. Events
//! collect in an outbox that the caller drains with `take_events`. Rates are in parts per
//! thousand.
use vstd::prelude::*;

use crate::asr::{
    engine_step, is_blank, prompt_of, text_is_blank, DriverAction, EngineEvent, StreamingTranscriptionResult,
    StreamingWhisperConfig, StreamingWhisperService, TranscriptionSession,
};
use crate::error::AudioError;
use tokio::sync::broadcast::Receiver;
use crate::channel::{send_step, ChannelState, ManagedChannel, RecoveryStrategy};
use crate::chunking::{flush_step, keep_last, stream_step, AudioChunk, BoundaryType, ChunkedAudio};
use crate::capture::CaptureState;
use crate::clock::now_millis;
use crate::dual::{dual_result, DualChannelVad};
use crate::error::{ErrorRecoveryAction};
use crate::features::{Sample, MAX_FRAME_LEN};

verus! {

/// Capacity of each source channel.
pub const SOURCE_CHANNEL_CAPACITY: usize = 1000;

/// Settings of the pipeline.
#[derive(Clone, Debug)]
pub struct ContextManagerConfig {
    pub sample_rate: usize,
    pub buffer_size_ms: u32,
    pub max_context_duration_s: u32,
    pub min_chunk_size_ms: u32,
    pub max_chunk_size_ms: u32,
    pub chunk_timeout_ms: u64,
    pub auto_model_management: bool,
    pub preferred_model: String,
    pub persist_context: bool,
}

impl ContextManagerConfig {
    /// 16 kHz, 100 ms buffers, 300 s of context, 1 to 30 s chunks, 10 s per chunk, the
    /// `base` model loaded automatically.
    pub fn standard() -> (r: ContextManagerConfig)
        ensures
            r.sample_rate == 16000,
            r.max_context_duration_s == 300,
            r.chunk_timeout_ms == 10000,
            r.auto_model_management,
            r.preferred_model@ == "base"@,
    {
        ContextManagerConfig {
            sample_rate: 16000,
            buffer_size_ms: 100,
            max_context_duration_s: 300,
            min_chunk_size_ms: 1000,
            max_chunk_size_ms: 30000,
            chunk_timeout_ms: 10000,
            auto_model_management: true,
            preferred_model: String::from_str("base"),
            persist_context: true,
        }
    }

    pub open spec fn wf(&self) -> bool {
        &&& 1000 <= self.sample_rate <= 1_000_000
        &&& (self.sample_rate as int) * (self.max_context_duration_s as int) <= usize::MAX
    }
}

/// The two audio sources.
#[derive(Clone, Copy, Debug, PartialEq, Eq, Structural)]
pub enum AudioSource {
    Microphone,
    Speaker,
}

impl AudioSource {
    pub open spec fn name_spec(&self) -> Seq<char> {
        match self {
            AudioSource::Microphone => "microphone"@,
            AudioSource::Speaker => "speaker"@,
        }
    }

    pub fn name(&self) -> (r: String)
        ensures
            r@ == self.name_spec(),
    {
        match self {
            AudioSource::Microphone => String::from_str("microphone"),
            AudioSource::Speaker => String::from_str("speaker"),
        }
    }
}

/// Status of one source.
#[derive(Clone, Debug)]
pub struct AudioSourceStatus {
    pub name: String,
    pub is_active: bool,
    pub samples_processed: u64,
    pub last_activity: Option<u64>,
    pub channel_health: ChannelState,
}

/// Running statistics. Rates are in parts per thousand.
#[derive(Clone, Copy, Debug, PartialEq, Eq, Structural)]
pub struct ProcessingStats {
    pub total_transcriptions: u64,
    pub average_latency_ms: u64,
    pub chunks_processed: u64,
    pub vad_efficiency: u32,
    pub context_hit_rate: u32,
    pub error_rate: u32,
}

pub open spec fn zero_processing_stats() -> ProcessingStats {
    ProcessingStats {
        total_transcriptions: 0,
        average_latency_ms: 0,
        chunks_processed: 0,
        vad_efficiency: 0,
        context_hit_rate: 0,
        error_rate: 0,
    }
}

/// The state of the whole pipeline.
#[derive(Clone, Debug)]
pub struct ContextManagerStatus {
    pub is_active: bool,
    pub current_model: Option<String>,
    pub audio_sources: Vec<AudioSourceStatus>,
    pub processing_stats: ProcessingStats,
    pub error_count: u64,
    pub uptime_ms: u64,
}

/// A transcription with where and when it came from.
#[derive(Clone, Debug)]
pub struct EnhancedTranscriptionResult {
    pub transcription: StreamingTranscriptionResult,
    pub source: String,
    pub sequence_id: u64,
    pub total_latency_ms: u64,
}

/// Events of the pipeline.
#[derive(Clone, Debug)]
pub enum ContextManagerEvent {
    TranscriptionReady(EnhancedTranscriptionResult),
    AudioSourceChanged { source: String, active: bool },
    ModelChanged { old_model: Option<String>, new_model: String },
    ProcessingError { error: String, source: String, recoverable: bool },
    StatusUpdate(ContextManagerStatus),
}

/// A model the engine offers.
#[derive(Clone, Debug)]
pub struct ModelInfo {
    pub name: String,
    pub status: ModelStatus,
}

#[derive(Clone, Copy, Debug, PartialEq, Eq, Structural)]
pub enum ModelStatus {
    Available,
    Missing,
    Other,
}

/// Why the preferred model cannot be used.
#[derive(Clone, Copy, Debug, PartialEq, Eq, Structural)]
pub enum ModelProblem {
    NotFound,
    NeedsDownload,
    NotReady,
}

/// The part of the state that configuration and lifecycle decide.
pub struct LifecycleView {
    pub active: bool,
    pub model: Option<Seq<char>>,
    pub preferred: Seq<char>,
}

/// The lifecycle after a stop.
pub open spec fn after_stop(v: LifecycleView) -> LifecycleView {
    LifecycleView { active: false, ..v }
}

/// The lifecycle after a start (which needs a model).
pub open spec fn after_start(v: LifecycleView) -> LifecycleView {
    if v.model is Some {
        LifecycleView { active: true, ..v }
    } else {
        v
    }
}

/// `(avg * (n - 1) + x) / n`, the running mean after the `n`-th value.
pub open spec fn running_mean(avg: int, n: int, x: int) -> int {
    (avg * (n - 1) + x) / n
}

/// Decides for the two pipelines and keeps the statistics.
pub struct StreamingTranscriptionContextManager {
    config: ContextManagerConfig,
    mic_channel: ManagedChannel<Vec<Sample>>,
    speaker_channel: ManagedChannel<Vec<Sample>>,
    vad_processor: DualChannelVad,
    mic_service: StreamingWhisperService,
    speaker_service: StreamingWhisperService,
    events: Vec<ContextManagerEvent>,
    stats: ProcessingStats,
    start_time: u64,
    sequence_counter: u64,
    is_active: bool,
    current_model: Option<String>,
}

impl StreamingTranscriptionContextManager {
    pub closed spec fn lifecycle(&self) -> LifecycleView {
        LifecycleView {
            active: self.is_active,
            model: match self.current_model {
                Some(m) => Some(m@),
                None => None,
            },
            preferred: self.config.preferred_model@,
        }
    }

    pub closed spec fn outbox(&self) -> Seq<ContextManagerEvent> {
        self.events@
    }

    pub closed spec fn stats_spec(&self) -> ProcessingStats {
        self.stats
    }

    pub closed spec fn next_sequence(&self) -> u64 {
        self.sequence_counter
    }

    pub closed spec fn mixer(&self) -> DualChannelVad {
        self.vad_processor
    }

    pub closed spec fn channel(&self, source: AudioSource) -> ManagedChannel<Vec<Sample>> {
        match source {
            AudioSource::Microphone => self.mic_channel,
            AudioSource::Speaker => self.speaker_channel,
        }
    }

    pub closed spec fn service(&self, source: AudioSource) -> StreamingWhisperService {
        match source {
            AudioSource::Microphone => self.mic_service,
            AudioSource::Speaker => self.speaker_service,
        }
    }

    pub closed spec fn wf(&self) -> bool {
        &&& self.config.wf()
        &&& self.mic_channel.wf()
        &&& self.speaker_channel.wf()
        &&& self.vad_processor.wf()
        &&& self.mic_service.wf()
        &&& self.speaker_service.wf()
        &&& self.stats.context_hit_rate <= 1000
        &&& self.stats.error_rate <= 1000
    }

    fn service_config(config: &ContextManagerConfig) -> (r: StreamingWhisperConfig)
        requires
            config.wf(),
        ensures
            r.sample_rate == config.sample_rate,
            r.context_overlap_samples == config.sample_rate / 10,
            r.max_processing_time_ms == config.chunk_timeout_ms,
    {
        StreamingWhisperConfig {
            sample_rate: config.sample_rate,
            max_context_samples: config.sample_rate * config.max_context_duration_s as usize,
            context_overlap_samples: config.sample_rate / 10,
            max_retries: 3,
            base_temperature: 0,
            temperature_increment: 200,
            max_temperature: 1000,
            language: Some(String::from_str("en")),
            enable_timestamps: true,
            confidence_threshold: 300,
            max_processing_time_ms: config.chunk_timeout_ms,
        }
    }

    /// Builds both pipelines, inactive and without a model.
    pub fn new(config: ContextManagerConfig) -> (r: Self)
        requires
            config.wf(),
        ensures
            r.wf(),
            r.lifecycle() == (LifecycleView {
                active: false,
                model: None,
                preferred: config.preferred_model@,
            }),
            r.outbox().len() == 0,
            r.stats_spec() == zero_processing_stats(),
            r.next_sequence() == 0,
    {
        let strategy = RecoveryStrategy::ExponentialBackoff {
            base_delay_ms: 100,
            max_delay_ms: 5000,
            max_retries: 5,
        };
        let sc = Self::service_config(&config);
        assert((config.sample_rate as int / 10) * 1000 / (config.sample_rate as int) <= 30000)
            by (nonlinear_arith)
            requires
                config.sample_rate >= 1000,
        ;
        let sc2 = Self::service_config(&config);
        assert(config.sample_rate * 30 / 1000 <= MAX_FRAME_LEN);
        StreamingTranscriptionContextManager {
            mic_channel: ManagedChannel::new(
                SOURCE_CHANNEL_CAPACITY,
                strategy,
                String::from_str("microphone"),
            ),
            speaker_channel: ManagedChannel::new(
                SOURCE_CHANNEL_CAPACITY,
                strategy,
                String::from_str("speaker"),
            ),
            vad_processor: DualChannelVad::new(config.sample_rate),
            mic_service: StreamingWhisperService::new(sc),
            speaker_service: StreamingWhisperService::new(sc2),
            events: Vec::new(),
            stats: ProcessingStats {
                total_transcriptions: 0,
                average_latency_ms: 0,
                chunks_processed: 0,
                vad_efficiency: 0,
                context_hit_rate: 0,
                error_rate: 0,
            },
            start_time: now_millis(),
            sequence_counter: 0,
            is_active: false,
            current_model: None,
            config,
        }
    }

    /// What to do about the model before starting: nothing when one is loaded; the
    /// preferred model's name when the engine lists it as available; otherwise why not.
    pub fn model_plan(&self, models: &Vec<ModelInfo>) -> (r: Result<Option<String>, ModelProblem>)
        ensures
            self.lifecycle().model is Some ==> r == Ok::<Option<String>, ModelProblem>(None),
            self.lifecycle().model is None ==> ({
                let found = exists|i: int|
                    0 <= i < models@.len() && #[trigger] models@[i].name@
                        == self.lifecycle().preferred;
                &&& !found ==> r == Err::<Option<String>, ModelProblem>(ModelProblem::NotFound)
                &&& found ==> (r is Ok ==> (r matches Ok(Some(n)) && n@ == self.lifecycle().preferred))
                &&& found ==> ({
                    let i = choose|i: int|
                        0 <= i < models@.len() && #[trigger] models@[i].name@
                            == self.lifecycle().preferred
                            && forall|j: int| 0 <= j < i ==> models@[j].name@ != self.lifecycle().preferred;
                    &&& models@[i].status == ModelStatus::Available ==> r is Ok
                    &&& models@[i].status == ModelStatus::Missing ==> r == Err::<
                        Option<String>,
                        ModelProblem,
                    >(ModelProblem::NeedsDownload)
                    &&& models@[i].status == ModelStatus::Other ==> r == Err::<
                        Option<String>,
                        ModelProblem,
                    >(ModelProblem::NotReady)
                })
            }),
    {
        if self.current_model.is_some() {
            return Ok(None);
        }
        let mut i: usize = 0;
        while i < models.len()
            invariant
                i <= models@.len(),
                self.current_model is None,
                forall|j: int| 0 <= j < i ==> models@[j].name@ != self.config.preferred_model@,
            decreases models@.len() - i,
        {
            if models[i].name == self.config.preferred_model {
                proof {
                    let p = self.lifecycle().preferred;
                    let k = choose|k: int|
                        0 <= k < models@.len() && #[trigger] models@[k].name@ == p && forall|j: int|
                            0 <= j < k ==> models@[j].name@ != p;
                    assert(0 <= i < models@.len() && models@[i as int].name@ == p && forall|j: int|
                        0 <= j < i ==> models@[j].name@ != p);
                    if k < i {
                        assert(models@[k].name@ != p);
                    }
                    if i < k {
                        assert(models@[i as int].name@ != p);
                    }
                    assert(k == i);
                }
                return match models[i].status {
                    ModelStatus::Available => Ok(Some(self.config.preferred_model.clone())),
                    ModelStatus::Missing => Err(ModelProblem::NeedsDownload),
                    ModelStatus::Other => Err(ModelProblem::NotReady),
                };
            }
            i = i + 1;
        }
        Err(ModelProblem::NotFound)
    }

    /// Records that the engine loaded `name`: marks both drivers ready and announces the
    /// change.
    pub fn model_loaded(&mut self, name: String)
        requires
            old(self).wf(),
        ensures
            final(self).wf(),
            final(self).lifecycle() == (LifecycleView { model: Some(name@), ..old(self).lifecycle() }),
            final(self).outbox().len() == old(self).outbox().len() + 1,
            final(self).outbox().drop_last() == old(self).outbox(),
            final(self).outbox().last() matches ContextManagerEvent::ModelChanged { new_model, .. }
                && new_model@ == name@,
            final(self).stats_spec() == old(self).stats_spec(),
            final(self).next_sequence() == old(self).next_sequence(),
    {
        let old_model = self.current_model.clone();
        self.current_model = Some(name.clone());
        self.mic_service.set_engine_ready(true);
        self.speaker_service.set_engine_ready(true);
        self.events.push(ContextManagerEvent::ModelChanged { old_model, new_model: name });
    }

    /// Starts the pipeline. Refused when it is already active or no model is loaded; else
    /// it becomes active and announces its status.
    pub fn start(&mut self) -> (r: Result<(), String>)
        requires
            old(self).wf(),
        ensures
            final(self).wf(),
            r is Ok <==> (!old(self).lifecycle().active && old(self).lifecycle().model is Some),
            r is Ok ==> final(self).lifecycle() == after_start(old(self).lifecycle()),
            r is Ok ==> final(self).outbox().len() == old(self).outbox().len() + 1 && final(self).outbox().drop_last() == old(self).outbox() && (final(self).outbox().last() matches ContextManagerEvent::StatusUpdate(s) && s.is_active),
            r is Err ==> final(self).lifecycle() == old(self).lifecycle() && final(self).outbox()
                == old(self).outbox(),
            final(self).stats_spec() == old(self).stats_spec(),
            final(self).next_sequence() == old(self).next_sequence(),
    {
        if self.is_active {
            return Err(String::from_str("Context manager is already active"));
        }
        if self.current_model.is_none() {
            return Err(String::from_str("No model is loaded"));
        }
        self.is_active = true;
        let status = self.get_status();
        self.events.push(ContextManagerEvent::StatusUpdate(status));
        Ok(())
    }

    /// First half of a stop: cuts what each pipeline has gathered as a manual chunk, for the
    /// caller to transcribe and report while the pipeline is still active.
    pub fn begin_stop(&mut self) -> (r: (Option<AudioChunk>, Option<AudioChunk>))
        requires
            old(self).wf(),
            old(self).service(AudioSource::Microphone).chunker_spec().chunks_created() < u64::MAX,
            old(self).service(AudioSource::Speaker).chunker_spec().chunks_created() < u64::MAX,
        ensures
            final(self).wf(),
            final(self).lifecycle() == old(self).lifecycle(),
            final(self).outbox() == old(self).outbox(),
            final(self).stats_spec() == old(self).stats_spec(),
            final(self).next_sequence() == old(self).next_sequence(),
            !old(self).lifecycle().active ==> r.0 is None && r.1 is None,
            old(self).lifecycle().active ==> flush_step(
                old(self).service(AudioSource::Microphone).chunker_spec(),
                r.0,
                final(self).service(AudioSource::Microphone).chunker_spec(),
            ) && flush_step(
                old(self).service(AudioSource::Speaker).chunker_spec(),
                r.1,
                final(self).service(AudioSource::Speaker).chunker_spec(),
            ),
            r.0 matches Some(c) ==> c.metadata.boundary_type == BoundaryType::ManualBoundary,
            r.1 matches Some(c) ==> c.metadata.boundary_type == BoundaryType::ManualBoundary,
    {
        if !self.is_active {
            return (None, None);
        }
        let a = self.mic_service.flush_chunk();
        let b = self.speaker_service.flush_chunk();
        (a, b)
    }

    /// Second half of a stop: inactive, context reset, status announced. Nothing is emitted
    /// after this until the next start.
    pub fn finish_stop(&mut self)
        requires
            old(self).wf(),
        ensures
            final(self).wf(),
            final(self).lifecycle() == after_stop(old(self).lifecycle()),
            old(self).lifecycle().active ==> final(self).outbox().len() == old(self).outbox().len()
                + 1 && final(self).outbox().drop_last() == old(self).outbox() && (final(self).outbox().last() matches ContextManagerEvent::StatusUpdate(s) && !s.is_active),
            old(self).lifecycle().active ==> final(self).service(AudioSource::Microphone).audio_ring().len()
                == 0 && final(self).service(AudioSource::Microphone).text_ring().len() == 0
                && final(self).service(AudioSource::Speaker).audio_ring().len() == 0 && final(self).service(AudioSource::Speaker).text_ring().len() == 0,
            !old(self).lifecycle().active ==> final(self).outbox() == old(self).outbox(),
            final(self).stats_spec() == old(self).stats_spec(),
            final(self).next_sequence() == old(self).next_sequence(),
    {
        if !self.is_active {
            return;
        }
        self.is_active = false;
        self.mic_service.reset_context();
        self.speaker_service.reset_context();
        let status = self.get_status();
        self.events.push(ContextManagerEvent::StatusUpdate(status));
    }

    /// Swaps in `name`, which the engine has loaded: an active pipeline stops (without a
    /// flush), the change is announced, and the pipeline starts again if it was active.
    pub fn change_model(&mut self, name: String)
        requires
            old(self).wf(),
        ensures
            final(self).wf(),
            final(self).lifecycle() == (LifecycleView {
                model: Some(name@),
                ..old(self).lifecycle()
            }),
            !old(self).lifecycle().active ==> final(self).outbox().len() == old(self).outbox().len()
                + 1 && (final(self).outbox().last() matches ContextManagerEvent::ModelChanged {
                new_model,
                ..
            } && new_model@ == name@),
            old(self).lifecycle().active ==> final(self).outbox().len() == old(self).outbox().len()
                + 3 && (final(self).outbox()[old(self).outbox().len() as int + 1] matches ContextManagerEvent::ModelChanged {
                new_model,
                ..
            } && new_model@ == name@),
            final(self).stats_spec() == old(self).stats_spec(),
            final(self).next_sequence() == old(self).next_sequence(),
    {
        let was_active = self.is_active;
        if was_active {
            self.finish_stop();
        }
        self.model_loaded(name);
        if was_active {
            let _ = self.start();
        }
    }

    /// Cuts a source's audio into chunks for transcription.
    pub fn chunk_source_audio(&mut self, source: AudioSource, samples: &[Sample]) -> (r: ChunkedAudio)
        requires
            old(self).wf(),
            old(self).service(source).chunker_spec().chunks_created() + samples@.len() + 1
                < u64::MAX,
        ensures
            final(self).wf(),
            final(self).lifecycle() == old(self).lifecycle(),
            final(self).outbox() == old(self).outbox(),
            final(self).stats_spec() == old(self).stats_spec(),
            final(self).next_sequence() == old(self).next_sequence(),
            stream_step(
                old(self).service(source).chunker_spec(),
                samples@,
                r,
                final(self).service(source).chunker_spec(),
            ),
    {
        match source {
            AudioSource::Microphone => self.mic_service.chunk_audio(samples),
            AudioSource::Speaker => self.speaker_service.chunk_audio(samples),
        }
    }

    /// Opens the transcription of a chunk of `source`.
    pub fn begin_transcription(&self, source: AudioSource, chunk: &AudioChunk) -> (r: (
        TranscriptionSession,
        DriverAction,
    ))
        requires
            self.wf(),
        ensures
            !r.0.finished && r.0.attempt == 0,
            r.0.chunk_id == chunk.metadata.chunk_id,
            r.0.boundary_type == chunk.metadata.boundary_type,
            r.0.chunk_samples@ == chunk.samples@,
            r.0.audio@ == keep_last(
                self.service(source).audio_ring(),
                self.service(source).config_spec().context_overlap_samples as int,
            ) + chunk.samples@,
            r.0.prompt@ == prompt_of(self.service(source).text_ring()),
            r.0.has_context == (prompt_of(self.service(source).text_ring()).len() > 0),
    {
        match source {
            AudioSource::Microphone => self.mic_service.begin_transcription(chunk),
            AudioSource::Speaker => self.speaker_service.begin_transcription(chunk),
        }
    }

    /// Hands what the engine gave for a session of `source` to that source's driver.
    pub fn on_engine_event(
        &mut self,
        source: AudioSource,
        session: &mut TranscriptionSession,
        event: EngineEvent,
    ) -> (r: DriverAction)
        requires
            old(self).wf(),
            !old(session).finished,
            old(session).attempt <= old(self).service(source).config_spec().max_retries,
        ensures
            final(self).wf(),
            final(self).lifecycle() == old(self).lifecycle(),
            final(self).outbox() == old(self).outbox(),
            final(self).stats_spec() == old(self).stats_spec(),
            final(self).next_sequence() == old(self).next_sequence(),
            final(session).attempt <= old(self).service(source).config_spec().max_retries,
            engine_step(
                old(self).service(source),
                *old(session),
                event,
                r,
                final(self).service(source),
                *final(session),
            ),
            r matches DriverAction::Done(res) ==> res.chunk_id == old(session).chunk_id
                && res.retry_count == old(session).attempt && res.has_context == old(session).has_context && res.boundary_type == old(session).boundary_type,
            r matches DriverAction::Infer { attempt, .. } ==> attempt == old(session).attempt + 1
                && final(session).attempt == attempt && !final(session).finished,
            !(r is Infer) ==> final(session).finished,
    {
        match source {
            AudioSource::Microphone => self.mic_service.on_engine_event(session, event),
            AudioSource::Speaker => self.speaker_service.on_engine_event(session, event),
        }
    }

    /// Reports a finished transcription. Inactive, it is dropped. Active, the statistics
    /// count it and, unless its text is blank, it is announced with the next sequence id.
    pub fn emit_transcription(
        &mut self,
        source: AudioSource,
        transcription: StreamingTranscriptionResult,
        latency_ms: u64,
    ) -> (r: bool)
        requires
            old(self).wf(),
            old(self).stats_spec().total_transcriptions < u64::MAX,
            old(self).stats_spec().chunks_processed < u64::MAX,
            old(self).next_sequence() < u64::MAX,
        ensures
            final(self).wf(),
            final(self).lifecycle() == old(self).lifecycle(),
            !old(self).lifecycle().active ==> !r && final(self).outbox() == old(self).outbox()
                && final(self).stats_spec() == old(self).stats_spec() && final(self).next_sequence()
                == old(self).next_sequence(),
            r <==> (old(self).lifecycle().active && !is_blank(transcription.text@)),
            r ==> final(self).outbox().len() == old(self).outbox().len() + 1 && final(self).next_sequence() == old(self).next_sequence() + 1 && (final(self).outbox().last() matches ContextManagerEvent::TranscriptionReady(e) && e.sequence_id
                == old(self).next_sequence() && e.source@ == source.name_spec()),
            !r ==> final(self).outbox() == old(self).outbox() && final(self).next_sequence() == old(self).next_sequence(),
            old(self).lifecycle().active ==> final(self).stats_spec().chunks_processed == old(self).stats_spec().chunks_processed + 1 && final(self).stats_spec().context_hit_rate as int
                == running_mean(
                old(self).stats_spec().context_hit_rate as int,
                old(self).stats_spec().total_transcriptions + 1,
                if transcription.has_context {
                    1000
                } else {
                    0
                },
            ) && final(self).stats_spec().error_rate == old(self).stats_spec().error_rate,
            old(self).lifecycle().active ==> final(self).stats_spec().total_transcriptions == old(self).stats_spec().total_transcriptions + 1 && final(self).stats_spec().average_latency_ms
                as int == running_mean(
                old(self).stats_spec().average_latency_ms as int,
                old(self).stats_spec().total_transcriptions + 1,
                latency_ms as int,
            ),
    {
        if !self.is_active {
            return false;
        }
        let n = self.stats.total_transcriptions + 1;
        self.stats.total_transcriptions = n;
        self.stats.chunks_processed = self.stats.chunks_processed + 1;
        let avg = self.stats.average_latency_ms as u128;
        assert(avg * ((n - 1) as int) <= (u64::MAX as int) * (u64::MAX as int)) by (nonlinear_arith)
            requires
                avg <= u64::MAX,
                n - 1 <= u64::MAX,
                n >= 1,
        ;
        assert(avg * ((n - 1) as int) >= 0) by (nonlinear_arith)
            requires
                avg >= 0,
                n >= 1,
        ;
        let mean = (avg * ((n - 1) as u128) + latency_ms as u128) / (n as u128);
        assert(mean <= u64::MAX) by (nonlinear_arith)
            requires
                mean == (avg * ((n - 1) as int) + latency_ms as int) / (n as int),
                avg <= u64::MAX,
                latency_ms <= u64::MAX,
                n >= 1,
        ;
        self.stats.average_latency_ms = mean as u64;
        let hit: u128 = if transcription.has_context {
            1000
        } else {
            0
        };
        assert((self.stats.context_hit_rate as int) * ((n - 1) as int) <= 1000 * (u64::MAX as int)) by (nonlinear_arith)
            requires
                self.stats.context_hit_rate <= 1000,
                n - 1 <= u64::MAX,
                n >= 1,
        ;
        assert((self.stats.context_hit_rate as int) * ((n - 1) as int) >= 0) by (nonlinear_arith)
            requires
                n >= 1,
        ;
        let rate = ((self.stats.context_hit_rate as u128) * ((n - 1) as u128) + hit) / (n as u128);
        assert(rate <= 1000) by (nonlinear_arith)
            requires
                rate == ((self.stats.context_hit_rate as int) * ((n - 1) as int) + hit as int) / (n as int),
                self.stats.context_hit_rate <= 1000,
                hit <= 1000,
                n >= 1,
        ;
        self.stats.context_hit_rate = rate as u32;
        if text_is_blank(transcription.text.as_str()) {
            return false;
        }
        let sequence_id = self.sequence_counter;
        self.sequence_counter = self.sequence_counter + 1;
        let source_name = source.name();
        self.events.push(
            ContextManagerEvent::TranscriptionReady(
                EnhancedTranscriptionResult {
                    transcription,
                    source: source_name,
                    sequence_id,
                    total_latency_ms: latency_ms,
                },
            ),
        );
        true
    }

    /// Reports a failed chunk: counted in the error rate and announced, recoverable when the
    /// advised action is to retry.
    pub fn record_processing_error(
        &mut self,
        source: AudioSource,
        error: String,
        action: ErrorRecoveryAction,
    )
        requires
            old(self).wf(),
            old(self).stats_spec().chunks_processed < u64::MAX,
        ensures
            final(self).wf(),
            final(self).lifecycle() == old(self).lifecycle(),
            final(self).next_sequence() == old(self).next_sequence(),
            !old(self).lifecycle().active ==> final(self).outbox() == old(self).outbox(),
            old(self).lifecycle().active ==> final(self).outbox().len() == old(self).outbox().len()
                + 1 && (final(self).outbox().last() matches ContextManagerEvent::ProcessingError {
                recoverable,
                ..
            } && recoverable == (action is Retry || action is Backoff)),
            old(self).lifecycle().active ==> (final(self).outbox().last() matches ContextManagerEvent::ProcessingError {
                error: e,
                source: s,
                ..
            } && e@ == error@ && s@ == source.name_spec()),
            old(self).lifecycle().active ==> final(self).stats_spec().chunks_processed == old(self).stats_spec().chunks_processed + 1
                && final(self).stats_spec().error_rate as int == running_mean(
                old(self).stats_spec().error_rate as int,
                old(self).stats_spec().chunks_processed + 1,
                1000,
            ),
            !old(self).lifecycle().active ==> final(self).stats_spec() == old(self).stats_spec(),
    {
        if !self.is_active {
            return;
        }
        let n = self.stats.chunks_processed + 1;
        self.stats.chunks_processed = n;
        assert((self.stats.error_rate as int) * ((n - 1) as int) <= 1000 * (u64::MAX as int)) by (nonlinear_arith)
            requires
                self.stats.error_rate <= 1000,
                n - 1 <= u64::MAX,
                n >= 1,
        ;
        assert((self.stats.error_rate as int) * ((n - 1) as int) >= 0) by (nonlinear_arith)
            requires
                n >= 1,
        ;
        let rate = ((self.stats.error_rate as u128) * ((n - 1) as u128) + 1000) / (n as u128);
        assert(rate <= 1000) by (nonlinear_arith)
            requires
                rate == ((self.stats.error_rate as int) * ((n - 1) as int) + 1000) / (n as int),
                self.stats.error_rate <= 1000,
                n >= 1,
        ;
        self.stats.error_rate = rate as u32;
        let recoverable = match action {
            ErrorRecoveryAction::Retry { .. } => true,
            ErrorRecoveryAction::Backoff { .. } => true,
            _ => false,
        };
        self.events.push(
            ContextManagerEvent::ProcessingError { error, source: source.name(), recoverable },
        );
    }

    /// Runs the mixed VAD over a pair of bursts.
    pub fn process_dual(&mut self, mic: &[Sample], speaker: &[Sample]) -> (r: Vec<Sample>)
        requires
            old(self).wf(),
            crate::features::valid_samples(mic@),
            crate::features::valid_samples(speaker@),
        ensures
            final(self).wf(),
            final(self).lifecycle() == old(self).lifecycle(),
            final(self).outbox() == old(self).outbox(),
            dual_result(old(self).mixer(), mic@, speaker@, r@),
            crate::features::valid_samples(r@),
    {
        self.vad_processor.process_dual_channel(mic, speaker)
    }

    /// Takes the events collected so far, oldest first.
    pub fn take_events(&mut self) -> (r: Vec<ContextManagerEvent>)
        ensures
            r@ == old(self).outbox(),
            final(self).outbox().len() == 0,
            final(self).lifecycle() == old(self).lifecycle(),
            final(self).stats_spec() == old(self).stats_spec(),
            final(self).next_sequence() == old(self).next_sequence(),
            old(self).wf() ==> final(self).wf(),
    {
        let mut out: Vec<ContextManagerEvent> = Vec::new();
        core::mem::swap(&mut out, &mut self.events);
        out
    }

    /// The pipeline's status.
    pub fn get_status(&self) -> (r: ContextManagerStatus)
        ensures
            r.is_active == self.lifecycle().active,
            (r.current_model is Some) == (self.lifecycle().model is Some),
            r.current_model matches Some(m) ==> self.lifecycle().model == Some(m@),
            r.processing_stats == self.stats_spec(),
            r.audio_sources@.len() == 2,
            r.audio_sources@[0].name@ == "microphone"@,
            r.audio_sources@[1].name@ == "speaker"@,
    {
        let mic = self.mic_channel.get_health();
        let spk = self.speaker_channel.get_health();
        let mut sources: Vec<AudioSourceStatus> = Vec::new();
        sources.push(
            AudioSourceStatus {
                name: String::from_str("microphone"),
                is_active: mic.is_healthy,
                samples_processed: 0,
                last_activity: None,
                channel_health: mic.state,
            },
        );
        sources.push(
            AudioSourceStatus {
                name: String::from_str("speaker"),
                is_active: spk.is_healthy,
                samples_processed: 0,
                last_activity: None,
                channel_health: spk.state,
            },
        );
        ContextManagerStatus {
            is_active: self.is_active,
            current_model: self.current_model.clone(),
            audio_sources: sources,
            processing_stats: self.stats,
            error_count: 0,
            uptime_ms: now_millis().saturating_sub(self.start_time),
        }
    }

    /// Clears recognition context, the mixed VAD and the statistics; the pipeline keeps
    /// running.
    pub fn reset_context(&mut self)
        requires
            old(self).wf(),
        ensures
            final(self).wf(),
            final(self).lifecycle() == old(self).lifecycle(),
            final(self).stats_spec() == zero_processing_stats(),
            final(self).outbox() == old(self).outbox(),
            final(self).service(AudioSource::Microphone).audio_ring().len() == 0,
            final(self).service(AudioSource::Microphone).text_ring().len() == 0,
            final(self).service(AudioSource::Speaker).audio_ring().len() == 0,
            final(self).service(AudioSource::Speaker).text_ring().len() == 0,
    {
        self.mic_service.reset_context();
        self.speaker_service.reset_context();
        self.vad_processor.reset();
        self.stats = ProcessingStats {
            total_transcriptions: 0,
            average_latency_ms: 0,
            chunks_processed: 0,
            vad_efficiency: 0,
            context_hit_rate: 0,
            error_rate: 0,
        };
    }

    /// Publishes a burst of captured audio on the channel of `source`.
    pub fn send_audio(&mut self, source: AudioSource, samples: Vec<Sample>) -> (r: Result<
        (),
        AudioError,
    >)
        requires
            old(self).wf(),
        ensures
            final(self).wf(),
            final(self).lifecycle() == old(self).lifecycle(),
            final(self).outbox() == old(self).outbox(),
            send_step(old(self).channel(source), samples, r, final(self).channel(source)),
    {
        match source {
            AudioSource::Microphone => self.mic_channel.send(samples),
            AudioSource::Speaker => self.speaker_channel.send(samples),
        }
    }

    /// Stops the capture of `source`: marks it stopped and closes its channel, once.
    pub fn stop_capture(&mut self, source: AudioSource, capture: &mut CaptureState) -> (r: bool)
        requires
            old(self).wf(),
        ensures
            final(self).wf(),
            final(self).lifecycle() == old(self).lifecycle(),
            final(self).outbox() == old(self).outbox(),
            r == !old(capture).stopped,
            final(capture).stopped,
            r ==> final(self).channel(source).state_spec() == ChannelState::Closed,
            !r ==> final(self).channel(source).state_spec() == old(self).channel(source).state_spec(),
    {
        match source {
            AudioSource::Microphone => capture.stop(&mut self.mic_channel),
            AudioSource::Speaker => capture.stop(&mut self.speaker_channel),
        }
    }

    /// A receiver of what `source`'s channel carries from now on.
    pub fn subscribe(&self, source: AudioSource) -> (r: Result<Receiver<Vec<Sample>>, AudioError>)
        requires
            self.wf(),
        ensures
            r is Err <==> self.channel(source).state_spec() == ChannelState::Closed,
    {
        match source {
            AudioSource::Microphone => self.mic_channel.subscribe(),
            AudioSource::Speaker => self.speaker_channel.subscribe(),
        }
    }
}

/// Stopping and starting again with the same settings gives back the same lifecycle: the
/// same activity, model and preferred model, hence the same configuration-observable status.
pub proof fn lemma_stop_start_round_trip(v: LifecycleView)
    requires
        v.active,
        v.model is Some,
    ensures
        after_start(after_stop(v)) == v,
{
}

} // verus!
