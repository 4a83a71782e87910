//! The recognition driver: context across chunks and retries on a temperature schedule.
//!
//! The engine runs outside the library. A transcription is a session: the driver says what
//! to run (`DriverAction::Infer`), the caller runs the engine and hands back what came of it
//! (`EngineEvent`), until the driver answers `Done` or `Failed`. Temperatures are in
//! thousandths; confidences in parts per thousand.
use vstd::prelude::*;
use vstd::string::StrSliceExecFns;

use crate::chunking::{
    flush_step, keep_last, stream_step, AudioChunk, BoundaryType, ChunkedAudio, ChunkingConfig, IntelligentChunker,
};
use crate::error::{create_error_context, AudioError, ErrorHandler};
use crate::features::{append_samples, copy_samples, slice_samples, Sample};

verus! {

/// Most texts that the prompt is built from.
pub const MAX_TEXT_SEGMENTS: usize = 10;

/// Confidence given to each non-blank segment, in parts per thousand.
pub const SEGMENT_CONFIDENCE: u32 = 800;

/// Pause between attempts, in milliseconds.
pub const RETRY_DELAY_MS: u64 = 100;

/// Whitespace as `char::is_whitespace` has it (the Unicode White_Space property).
pub open spec fn is_ws(c: char) -> bool {
    ('\u{9}' <= c <= '\u{d}') || c == ' ' || c == '\u{85}' || c == '\u{a0}' || c == '\u{1680}'
        || ('\u{2000}' <= c <= '\u{200a}') || c == '\u{2028}' || c == '\u{2029}' || c
        == '\u{202f}' || c == '\u{205f}' || c == '\u{3000}'
}

fn is_ws_exec(c: char) -> (r: bool)
    ensures
        r == is_ws(c),
{
    ('\u{9}' <= c && c <= '\u{d}') || c == ' ' || c == '\u{85}' || c == '\u{a0}' || c
        == '\u{1680}' || ('\u{2000}' <= c && c <= '\u{200a}') || c == '\u{2028}' || c
        == '\u{2029}' || c == '\u{202f}' || c == '\u{205f}' || c == '\u{3000}'
}

/// `s` holds nothing but whitespace.
pub open spec fn is_blank(s: Seq<char>) -> bool {
    forall|i: int| 0 <= i < s.len() ==> is_ws(#[trigger] s[i])
}

/// Index of the first non-whitespace character at or after `i` (or `s.len()`).
pub open spec fn first_solid(s: Seq<char>, i: int) -> int
    decreases s.len() - i,
{
    if i >= s.len() {
        s.len() as int
    } else if !is_ws(s[i]) {
        i
    } else {
        first_solid(s, i + 1)
    }
}

/// One past the last non-whitespace character before `j` (or `lo`).
pub open spec fn end_solid(s: Seq<char>, lo: int, j: int) -> int
    decreases j - lo,
{
    if j <= lo {
        lo
    } else if !is_ws(s[j - 1]) {
        j
    } else {
        end_solid(s, lo, j - 1)
    }
}

/// `s` without leading and trailing whitespace, as `str::trim` gives it.
pub open spec fn trimmed(s: Seq<char>) -> Seq<char> {
    let a = first_solid(s, 0);
    s.subrange(a, end_solid(s, a, s.len() as int))
}

/// `s` without leading and trailing whitespace.
pub fn trim_text(s: &str) -> (r: String)
    ensures
        r@ == trimmed(s@),
{
    let n = s.unicode_len();
    let mut a: usize = 0;
    while a < n && is_ws_exec(s.get_char(a))
        invariant
            n == s@.len(),
            a <= n,
            first_solid(s@, 0) == first_solid(s@, a as int),
        decreases n - a,
    {
        a = a + 1;
    }
    let mut b: usize = n;
    while b > a && is_ws_exec(s.get_char(b - 1))
        invariant
            n == s@.len(),
            a <= b <= n,
            first_solid(s@, 0) == a,
            end_solid(s@, a as int, n as int) == end_solid(s@, a as int, b as int),
        decreases b - a,
    {
        b = b - 1;
    }
    String::from_str(s.substring_char(a, b))
}

/// Whether `s` is blank.
pub fn text_is_blank(s: &str) -> (r: bool)
    ensures
        r == is_blank(s@),
{
    let n = s.unicode_len();
    let mut i: usize = 0;
    while i < n
        invariant
            n == s@.len(),
            i <= n,
            forall|j: int| 0 <= j < i ==> is_ws(#[trigger] s@[j]),
        decreases n - i,
    {
        if !is_ws_exec(s.get_char(i)) {
            return false;
        }
        i = i + 1;
    }
    true
}

/// Settings of the driver.
#[derive(Clone, Debug)]
pub struct StreamingWhisperConfig {
    pub sample_rate: usize,
    pub max_context_samples: usize,
    pub context_overlap_samples: usize,
    pub max_retries: u32,
    /// Temperatures in thousandths.
    pub base_temperature: u32,
    pub temperature_increment: u32,
    pub max_temperature: u32,
    pub language: Option<String>,
    pub enable_timestamps: bool,
    /// In parts per thousand.
    pub confidence_threshold: u32,
    pub max_processing_time_ms: u64,
}

impl StreamingWhisperConfig {
    /// 16 kHz, 30 s of context with 1 s of overlap, 3 retries at temperatures 0, 0.2, ...
    /// up to 1.0, English, timestamps on, confidence threshold 0.3, 10 s per chunk.
    pub fn standard() -> (r: StreamingWhisperConfig)
        ensures
            r.sample_rate == 16000,
            r.max_context_samples == 480000,
            r.context_overlap_samples == 16000,
            r.max_retries == 3,
            r.base_temperature == 0 && r.temperature_increment == 200 && r.max_temperature
                == 1000,
            r.enable_timestamps,
            r.confidence_threshold == 300,
            r.max_processing_time_ms == 10000,
    {
        StreamingWhisperConfig {
            sample_rate: 16000,
            max_context_samples: 480000,
            context_overlap_samples: 16000,
            max_retries: 3,
            base_temperature: 0,
            temperature_increment: 200,
            max_temperature: 1000,
            language: Some(String::from_str("en")),
            enable_timestamps: true,
            confidence_threshold: 300,
            max_processing_time_ms: 10000,
        }
    }
}

/// `min(base + n * step, max)`.
pub open spec fn temperature_at(base: u32, step: u32, max: u32, n: u32) -> u32 {
    let t = base as int + (n as int) * (step as int);
    if t < max as int {
        t as u32
    } else {
        max
    }
}

/// The temperature of each attempt.
#[derive(Clone, Copy, Debug)]
pub struct TemperatureScheduler {
    pub base_temperature: u32,
    pub increment: u32,
    pub max_temperature: u32,
    pub current_retry: u32,
}

impl TemperatureScheduler {
    pub fn new(base: u32, increment: u32, max: u32) -> (r: Self)
        ensures
            r == (TemperatureScheduler {
                base_temperature: base,
                increment,
                max_temperature: max,
                current_retry: 0,
            }),
    {
        TemperatureScheduler {
            base_temperature: base,
            increment,
            max_temperature: max,
            current_retry: 0,
        }
    }

    /// The temperature of the current attempt.
    pub fn get_temperature(&self) -> (r: u32)
        ensures
            r == temperature_at(
                self.base_temperature,
                self.increment,
                self.max_temperature,
                self.current_retry,
            ),
    {
        assert((self.current_retry as int) * (self.increment as int) <= (u32::MAX as int) * (
        u32::MAX as int)) by (nonlinear_arith)
            requires
                self.current_retry <= u32::MAX,
                self.increment <= u32::MAX,
        ;
        assert((self.current_retry as int) * (self.increment as int) >= 0) by (nonlinear_arith);
        let t = self.base_temperature as u128 + (self.current_retry as u128) * (
        self.increment as u128);
        if t < self.max_temperature as u128 {
            t as u32
        } else {
            self.max_temperature
        }
    }

    /// Moves to the next attempt and gives its temperature.
    pub fn next_retry(&mut self) -> (r: u32)
        requires
            old(self).current_retry < u32::MAX,
        ensures
            final(self).current_retry == old(self).current_retry + 1,
            final(self).base_temperature == old(self).base_temperature,
            final(self).increment == old(self).increment,
            final(self).max_temperature == old(self).max_temperature,
            r == temperature_at(
                old(self).base_temperature,
                old(self).increment,
                old(self).max_temperature,
                (old(self).current_retry + 1) as u32,
            ),
    {
        self.current_retry = self.current_retry + 1;
        self.get_temperature()
    }

    pub fn reset(&mut self)
        ensures
            *final(self) == (TemperatureScheduler { current_retry: 0, ..*old(self) }),
    {
        self.current_retry = 0;
    }
}

/// A segment as the engine gives it; times are in engine ticks of 10 ms.
#[derive(Clone, Debug)]
pub struct EngineSegment {
    pub text: String,
    pub t0: i64,
    pub t1: i64,
}

/// A segment of a transcription, with times in milliseconds.
#[derive(Clone, Debug)]
pub struct TranscriptionSegment {
    pub text: String,
    pub start_ms: i64,
    pub end_ms: i64,
    pub confidence: u32,
}

/// What the engine's segments amount to.
#[derive(Clone, Debug)]
pub struct TranscriptionAttemptResult {
    pub text: String,
    pub confidence: u32,
    pub segments: Vec<TranscriptionSegment>,
}

/// The text built from the first `i` of `n` segments: each non-blank segment's text,
/// followed by a space unless it is the last segment.
pub open spec fn built(t: Seq<Seq<char>>, n: int, i: int) -> Seq<char>
    decreases i,
{
    if i <= 0 {
        Seq::empty()
    } else {
        let prev = built(t, n, i - 1);
        if is_blank(t[i - 1]) {
            prev
        } else if i < n {
            prev + t[i - 1] + seq![' ']
        } else {
            prev + t[i - 1]
        }
    }
}

/// Number of non-blank segments.
pub open spec fn solid_count(segs: Seq<Seq<char>>) -> nat
    decreases segs.len(),
{
    if segs.len() == 0 {
        0
    } else {
        solid_count(segs.drop_last()) + if is_blank(segs.last()) {
            0nat
        } else {
            1nat
        }
    }
}

/// Mean confidence of the segments: non-blank ones count `SEGMENT_CONFIDENCE`, blank
/// ones 0; no segments give 0.
pub open spec fn mean_confidence(segs: Seq<Seq<char>>) -> int {
    if segs.len() == 0 {
        0
    } else {
        (solid_count(segs) as int) * (SEGMENT_CONFIDENCE as int) / (segs.len() as int)
    }
}

/// The texts of `segs`.
pub open spec fn texts(segs: Seq<EngineSegment>) -> Seq<Seq<char>> {
    Seq::new(segs.len(), |i: int| segs[i].text@)
}

/// Turns engine segments into a result: the trimmed text of the non-blank segments, space
/// separated, and their mean confidence. With `timestamps`, the non-blank segments are
/// kept with their times.
pub fn aggregate_segments(segments: &Vec<EngineSegment>, timestamps: bool) -> (r:
    TranscriptionAttemptResult)
    requires
        segments@.len() < 0x1_0000_0000,
    ensures
        r.text@ == trimmed(built(texts(segments@), segments@.len() as int, segments@.len() as int)),
        r.confidence as int == mean_confidence(texts(segments@)),
        r.segments@.len() == if timestamps {
            solid_count(texts(segments@)) as int
        } else {
            0
        },
{
    let n = segments.len();
    let mut text = String::new();
    let mut kept: Vec<TranscriptionSegment> = Vec::new();
    let mut solid: u64 = 0;
    let mut i: usize = 0;
    while i < n
        invariant
            n == segments@.len(),
            n < 0x1_0000_0000,
            i <= n,
            solid as nat == solid_count(texts(segments@).subrange(0, i as int)),
            solid <= i,
            text@ == built(texts(segments@), n as int, i as int),
            kept@.len() == if timestamps {
                solid as int
            } else {
                0
            },
        decreases n - i,
    {
        let seg = &segments[i];
        proof {
            let t = texts(segments@);
            assert(t.subrange(0, i as int + 1).drop_last() =~= t.subrange(0, i as int));
            assert(t.subrange(0, i as int + 1).last() == seg.text@);
        }
        if !text_is_blank(seg.text.as_str()) {
            text.append(seg.text.as_str());
            if i + 1 < n {
                text.append(" ");
                proof {
                    reveal_strlit(" ");
                }
            }
            if timestamps {
                let start = if seg.t0 > i64::MAX / 10 {
                    i64::MAX
                } else if seg.t0 < i64::MIN / 10 {
                    i64::MIN
                } else {
                    seg.t0 * 10
                };
                let end = if seg.t1 > i64::MAX / 10 {
                    i64::MAX
                } else if seg.t1 < i64::MIN / 10 {
                    i64::MIN
                } else {
                    seg.t1 * 10
                };
                kept.push(
                    TranscriptionSegment {
                        text: trim_text(seg.text.as_str()),
                        start_ms: start,
                        end_ms: end,
                        confidence: SEGMENT_CONFIDENCE,
                    },
                );
            }
            solid = solid + 1;
        }
        i = i + 1;
    }
    proof {
        assert(texts(segments@).subrange(0, n as int) =~= texts(segments@));
    }
    let confidence: u32 = if n == 0 {
        0
    } else {
        assert(solid * 800 / (n as int) <= 800) by (nonlinear_arith)
            requires
                solid <= n,
                n > 0,
        ;
        ((solid * SEGMENT_CONFIDENCE as u64) / (n as u64)) as u32
    };
    TranscriptionAttemptResult { text: trim_text(text.as_str()), confidence, segments: kept }
}

/// The result of transcribing a chunk.
#[derive(Clone, Debug)]
pub struct StreamingTranscriptionResult {
    pub chunk_id: u64,
    pub text: String,
    pub confidence: u32,
    pub processing_time_ms: u64,
    pub retry_count: u32,
    pub temperature_used: u32,
    pub boundary_type: BoundaryType,
    pub has_context: bool,
    pub segment_timestamps: Vec<TranscriptionSegment>,
}

/// What the driver asks of the caller next.
#[derive(Clone, Debug)]
pub enum DriverAction {
    /// Run the engine on the session's audio and prompt at this temperature (after waiting
    /// `delay_ms`).
    Infer { attempt: u32, temperature: u32, delay_ms: u64 },
    /// The chunk is transcribed.
    Done(StreamingTranscriptionResult),
    /// The chunk is dropped.
    Failed(AudioError),
}

/// What came of running the engine.
#[derive(Clone, Debug)]
pub enum EngineEvent {
    Segments { segments: Vec<EngineSegment>, elapsed_ms: u64 },
    EngineError { message: String, elapsed_ms: u64 },
}

/// One chunk's transcription in progress.
#[derive(Clone, Debug)]
pub struct TranscriptionSession {
    pub chunk_id: u64,
    pub chunk_samples: Vec<Sample>,
    pub boundary_type: BoundaryType,
    /// The audio to run: the context overlap, then the chunk.
    pub audio: Vec<Sample>,
    /// The prompt: the recent texts, space separated.
    pub prompt: String,
    pub has_context: bool,
    /// Language passed to the engine, if any.
    pub language: Option<String>,
    /// Whether the engine should report segment times.
    pub timestamps: bool,
    pub attempt: u32,
    pub finished: bool,
}

/// Processing statistics of the driver.
#[derive(Clone, Copy, Debug)]
pub struct StreamingStats {
    pub total_transcriptions: u64,
    pub total_processing_time_ms: u64,
    pub average_processing_time_ms: u64,
    pub retry_count: u64,
    pub error_count: u64,
    pub context_hits: u64,
    pub total_audio_samples: u64,
}

/// The prompt built from `texts`: joined with single spaces.
pub open spec fn prompt_of(texts: Seq<Seq<char>>) -> Seq<char>
    decreases texts.len(),
{
    if texts.len() == 0 {
        Seq::empty()
    } else if texts.len() == 1 {
        texts[0]
    } else {
        prompt_of(texts.drop_last()) + seq![' '] + texts.last()
    }
}

/// The driver: audio and text context, settings, chunker and statistics.
pub struct StreamingWhisperService {
    config: StreamingWhisperConfig,
    chunker: IntelligentChunker,
    context_buffer: Vec<Sample>,
    text_context: Vec<String>,
    error_handler: ErrorHandler,
    stats: StreamingStats,
    engine_ready: bool,
}

impl StreamingWhisperService {
    pub closed spec fn audio_ring(&self) -> Seq<Sample> {
        self.context_buffer@
    }

    pub closed spec fn text_ring(&self) -> Seq<Seq<char>> {
        Seq::new(self.text_context@.len(), |i: int| self.text_context@[i]@)
    }

    pub closed spec fn config_spec(&self) -> StreamingWhisperConfig {
        self.config
    }

    pub closed spec fn ready(&self) -> bool {
        self.engine_ready
    }

    pub closed spec fn stats_spec(&self) -> StreamingStats {
        self.stats
    }

    pub closed spec fn chunker_spec(&self) -> IntelligentChunker {
        self.chunker
    }

    pub closed spec fn wf(&self) -> bool {
        &&& self.chunker.wf()
        &&& self.error_handler.wf()
        &&& self.context_buffer@.len() <= self.config.max_context_samples
        &&& self.text_context@.len() <= MAX_TEXT_SEGMENTS
        &&& forall|i: int|
            0 <= i < self.text_context@.len() ==> !is_blank(#[trigger] self.text_context@[i]@)
    }

    /// A driver with empty context and no engine yet. Its chunker cuts 1 to 30 s chunks
    /// aiming at 10 s, with the driver's overlap.
    pub fn new(config: StreamingWhisperConfig) -> (r: Self)
        requires
            1000 <= config.sample_rate <= 1_000_000,
            (config.context_overlap_samples as int) * 1000 / (config.sample_rate as int) <= 30000,
        ensures
            r.wf(),
            r.config_spec() == config,
            r.audio_ring().len() == 0,
            r.text_ring().len() == 0,
            !r.ready(),
            r.stats_spec() == zero_stats(),
    {
        let overlap_ms = ((config.context_overlap_samples as u128) * 1000 / (config.sample_rate as u128)) as u32;
        let chunker_config = ChunkingConfig {
            sample_rate: config.sample_rate as u32,
            min_chunk_duration_ms: 1000,
            max_chunk_duration_ms: 30000,
            target_chunk_duration_ms: 10000,
            overlap_duration_ms: overlap_ms,
            silence_threshold: 328,
            boundary_confidence_threshold: 800,
            force_chunk_on_silence_ms: 500,
            context_preservation_enabled: true,
        };
        assert(chunker_config.wf()) by {
            assert(((30000 as int) * (config.sample_rate as int)) % 1000 == 0) by (nonlinear_arith);
            assert((30000 as int) * (config.sample_rate as int) / 1000 <= 30_000_000) by (nonlinear_arith)
                requires
                    config.sample_rate <= 1_000_000,
            ;
        }
        let texts: Vec<String> = Vec::new();
        StreamingWhisperService {
            config,
            chunker: IntelligentChunker::new(chunker_config),
            context_buffer: Vec::new(),
            text_context: texts,
            error_handler: ErrorHandler::new(),
            stats: StreamingStats {
                total_transcriptions: 0,
                total_processing_time_ms: 0,
                average_processing_time_ms: 0,
                retry_count: 0,
                error_count: 0,
                context_hits: 0,
                total_audio_samples: 0,
            },
            engine_ready: false,
        }
    }

    /// Records that an engine has been loaded (or unloaded) by the caller.
    pub fn set_engine_ready(&mut self, ready: bool)
        requires
            old(self).wf(),
        ensures
            final(self).wf(),
            final(self).ready() == ready,
            final(self).audio_ring() == old(self).audio_ring(),
            final(self).text_ring() == old(self).text_ring(),
            final(self).config_spec() == old(self).config_spec(),
            final(self).stats_spec() == old(self).stats_spec(),
    {
        self.engine_ready = ready;
    }

    pub fn is_ready(&self) -> (r: bool)
        ensures
            r == self.ready(),
    {
        self.engine_ready
    }

    /// The newest `context_overlap_samples` of the audio ring, then `new_samples`.
    pub fn get_audio_context(&self, new_samples: &[Sample]) -> (r: Vec<Sample>)
        ensures
            r@ == keep_last(self.audio_ring(), self.config_spec().context_overlap_samples as int)
                + new_samples@,
    {
        let n = self.context_buffer.len();
        let from = if n <= self.config.context_overlap_samples {
            0
        } else {
            n - self.config.context_overlap_samples
        };
        let mut out = slice_samples(self.context_buffer.as_slice(), from, n);
        proof {
            if n <= self.config.context_overlap_samples {
                assert(self.context_buffer@.subrange(0, n as int) =~= self.context_buffer@);
            }
        }
        append_samples(&mut out, new_samples);
        out
    }

    /// The prompt: the texts of the ring joined by spaces (empty for an empty ring).
    pub fn get_text_context(&self) -> (r: String)
        ensures
            r@ == prompt_of(self.text_ring()),
    {
        let mut out = String::new();
        let n = self.text_context.len();
        let mut i: usize = 0;
        while i < n
            invariant
                n == self.text_context@.len(),
                i <= n,
                out@ == prompt_of(self.text_ring().subrange(0, i as int)),
            decreases n - i,
        {
            proof {
                let t = self.text_ring();
                let s = t.subrange(0, i as int + 1);
                assert(s.drop_last() =~= t.subrange(0, i as int));
                assert(s.last() == self.text_context@[i as int]@);
                if i == 0 {
                    assert(s.len() == 1);
                    assert(out@ == Seq::<char>::empty());
                    assert(out@ + self.text_context@[0]@ =~= s[0]);
                }
            }
            if i > 0 {
                out.append(" ");
                proof {
                    reveal_strlit(" ");
                }
            }
            out.append(self.text_context[i].as_str());
            i = i + 1;
        }
        proof {
            assert(self.text_ring().subrange(0, n as int) =~= self.text_ring());
        }
        out
    }

    /// Adds `samples` to the audio ring, keeping its newest `max_context_samples`.
    fn add_audio_context(&mut self, samples: &[Sample])
        requires
            old(self).wf(),
        ensures
            final(self).wf(),
            final(self).audio_ring() == keep_last(
                old(self).audio_ring() + samples@,
                old(self).config.max_context_samples as int,
            ),
            final(self).text_context == old(self).text_context,
            final(self).config == old(self).config,
            final(self).stats == old(self).stats,
            final(self).engine_ready == old(self).engine_ready,
            final(self).chunker == old(self).chunker,
    {
        append_samples(&mut self.context_buffer, samples);
        let n = self.context_buffer.len();
        if n > self.config.max_context_samples {
            self.context_buffer = slice_samples(
                self.context_buffer.as_slice(),
                n - self.config.max_context_samples,
                n,
            );
        }
    }

    /// Adds a text to the ring unless it is blank; the ring keeps the newest ten.
    fn add_text_context(&mut self, text: &String)
        requires
            old(self).wf(),
        ensures
            final(self).wf(),
            is_blank(text@) ==> final(self).text_ring() == old(self).text_ring(),
            !is_blank(text@) ==> final(self).text_ring() == (if old(self).text_ring().len()
                < MAX_TEXT_SEGMENTS {
                old(self).text_ring().push(text@)
            } else {
                old(self).text_ring().push(text@).drop_first()
            }),
            final(self).context_buffer == old(self).context_buffer,
            final(self).config == old(self).config,
            final(self).stats == old(self).stats,
            final(self).engine_ready == old(self).engine_ready,
            final(self).chunker == old(self).chunker,
    {
        if text_is_blank(text.as_str()) {
            return;
        }
        let ghost t0 = self.text_ring();
        self.text_context.push(text.clone());
        if self.text_context.len() > MAX_TEXT_SEGMENTS {
            self.text_context.remove(0);
            proof {
                assert(self.text_ring() =~= t0.push(text@).drop_first());
            }
        } else {
            proof {
                assert(self.text_ring() =~= t0.push(text@));
            }
        }
    }

    /// Clears both rings and the chunker.
    pub fn reset_context(&mut self)
        requires
            old(self).wf(),
        ensures
            final(self).wf(),
            final(self).audio_ring().len() == 0,
            final(self).text_ring().len() == 0,
            final(self).config_spec() == old(self).config_spec(),
            final(self).ready() == old(self).ready(),
            final(self).stats_spec() == old(self).stats_spec(),
    {
        self.context_buffer = Vec::new();
        self.text_context = Vec::new();
        self.chunker.reset();
    }

    /// Opens the transcription of `chunk`: its audio with the context overlap in front, the
    /// prompt from the text ring, and the first attempt to run.
    pub fn begin_transcription(&self, chunk: &AudioChunk) -> (r: (TranscriptionSession, DriverAction))
        requires
            self.wf(),
        ensures
            r.0.audio@ == keep_last(
                self.audio_ring(),
                self.config_spec().context_overlap_samples as int,
            ) + chunk.samples@,
            r.0.prompt@ == prompt_of(self.text_ring()),
            r.0.has_context == (prompt_of(self.text_ring()).len() > 0),
            r.0.chunk_samples@ == chunk.samples@,
            r.0.chunk_id == chunk.metadata.chunk_id,
            r.0.boundary_type == chunk.metadata.boundary_type,
            r.0.attempt == 0,
            !r.0.finished,
            r.0.language == self.config_spec().language,
            r.0.timestamps == self.config_spec().enable_timestamps,
            r.1 matches DriverAction::Infer { attempt, temperature, delay_ms } && attempt == 0
                && delay_ms == 0 && temperature == temperature_at(
                self.config_spec().base_temperature,
                self.config_spec().temperature_increment,
                self.config_spec().max_temperature,
                0,
            ),
    {
        let audio = self.get_audio_context(chunk.samples.as_slice());
        let prompt = self.get_text_context();
        let has_context = prompt.unicode_len() > 0;
        let sched = TemperatureScheduler::new(
            self.config.base_temperature,
            self.config.temperature_increment,
            self.config.max_temperature,
        );
        let session = TranscriptionSession {
            chunk_id: chunk.metadata.chunk_id,
            chunk_samples: copy_samples(chunk.samples.as_slice()),
            boundary_type: chunk.metadata.boundary_type,
            audio,
            prompt,
            has_context,
            language: match &self.config.language {
                Some(l) => Some(l.clone()),
                None => None,
            },
            timestamps: self.config.enable_timestamps,
            attempt: 0,
            finished: false,
        };
        (session, DriverAction::Infer { attempt: 0, temperature: sched.get_temperature(), delay_ms: 0 })
    }

    /// Takes the outcome of the session's current attempt. An attempt succeeds when the
    /// engine gave segments of mean confidence at least the threshold: the chunk's samples
    /// and the text join the context and the result carries the attempt number and its
    /// temperature. Otherwise, past the time limit the chunk fails with a timeout; with
    /// retries left the next attempt runs 100 ms later one temperature step up; else it
    /// fails.
    pub fn on_engine_event(&mut self, session: &mut TranscriptionSession, event: EngineEvent) -> (r:
        DriverAction)
        requires
            old(self).wf(),
            !old(session).finished,
            old(session).attempt <= old(self).config_spec().max_retries,
        ensures
            engine_step(*old(self), *old(session), event, r, *final(self), *final(session)),
    {
        let n = session.attempt;
        let mut sched = TemperatureScheduler::new(
            self.config.base_temperature,
            self.config.temperature_increment,
            self.config.max_temperature,
        );
        sched.current_retry = n;
        let temperature = sched.get_temperature();
        let (outcome, elapsed): (Option<TranscriptionAttemptResult>, u64) = match event {
            EngineEvent::Segments { segments, elapsed_ms } => {
                if (segments.len() as u64) < 0x1_0000_0000 {
                    let res = aggregate_segments(&segments, self.config.enable_timestamps);
                    if res.confidence >= self.config.confidence_threshold {
                        (Some(res), elapsed_ms)
                    } else {
                        (None, elapsed_ms)
                    }
                } else {
                    (None, elapsed_ms)
                }
            },
            EngineEvent::EngineError { elapsed_ms, .. } => (None, elapsed_ms),
        };
        match outcome {
            Some(res) => {
                if session.has_context {
                    self.stats.context_hits = self.stats.context_hits.saturating_add(1);
                }
                self.add_audio_context(session.chunk_samples.as_slice());
                self.add_text_context(&res.text);
                session.finished = true;
                DriverAction::Done(
                    StreamingTranscriptionResult {
                        chunk_id: session.chunk_id,
                        text: res.text,
                        confidence: res.confidence,
                        processing_time_ms: elapsed,
                        retry_count: n,
                        temperature_used: temperature,
                        boundary_type: session.boundary_type,
                        has_context: session.has_context,
                        segment_timestamps: res.segments,
                    },
                )
            },
            None => {
                if elapsed > self.config.max_processing_time_ms {
                    session.finished = true;
                    self.stats.error_count = self.stats.error_count.saturating_add(1);
                    let err = AudioError::processing_timeout(
                        session.chunk_samples.len(),
                        self.config.max_processing_time_ms,
                    );
                    let ctx = create_error_context("streaming_whisper", "transcribe_chunk_timeout", None);
                    let _action = self.error_handler.handle_error(err.clone(), ctx);
                    DriverAction::Failed(err)
                } else if n < self.config.max_retries {
                    session.attempt = n + 1;
                    let next = sched.next_retry();
                    DriverAction::Infer { attempt: n + 1, temperature: next, delay_ms: RETRY_DELAY_MS }
                } else {
                    session.finished = true;
                    self.stats.error_count = self.stats.error_count.saturating_add(1);
                    self.stats.retry_count = self.stats.retry_count.saturating_add(
                        self.config.max_retries as u64,
                    );
                    let err = AudioError::transcription_failed(
                        session.chunk_samples.len(),
                        "no attempt reached the confidence threshold",
                    );
                    let ctx = create_error_context("streaming_whisper", "transcribe_chunk", None);
                    let _action = self.error_handler.handle_error(err.clone(), ctx);
                    DriverAction::Failed(err)
                }
            },
        }
    }

    /// Cuts `samples` into chunks with the driver's chunker.
    pub fn chunk_audio(&mut self, samples: &[Sample]) -> (r: ChunkedAudio)
        requires
            old(self).wf(),
            old(self).chunker_spec().chunks_created() + samples@.len() + 1 < u64::MAX,
        ensures
            final(self).wf(),
            final(self).config_spec() == old(self).config_spec(),
            final(self).audio_ring() == old(self).audio_ring(),
            final(self).text_ring() == old(self).text_ring(),
            final(self).ready() == old(self).ready(),
            stream_step(old(self).chunker_spec(), samples@, r, final(self).chunker_spec()),
    {
        self.chunker.process_stream(samples, 0)
    }

    /// Cuts whatever speech the chunker holds as a manual chunk.
    pub fn flush_chunk(&mut self) -> (r: Option<AudioChunk>)
        requires
            old(self).wf(),
            old(self).chunker_spec().chunks_created() < u64::MAX,
        ensures
            final(self).wf(),
            final(self).config_spec() == old(self).config_spec(),
            final(self).audio_ring() == old(self).audio_ring(),
            final(self).text_ring() == old(self).text_ring(),
            final(self).ready() == old(self).ready(),
            flush_step(old(self).chunker_spec(), r, final(self).chunker_spec()),
    {
        self.chunker.force_chunk(0)
    }

    /// Counts a batch of `samples` that gave `results` transcriptions in `elapsed_ms`.
    pub fn record_batch(&mut self, samples: u64, results: u64, elapsed_ms: u64)
        requires
            old(self).wf(),
        ensures
            final(self).wf(),
            final(self).audio_ring() == old(self).audio_ring(),
            final(self).text_ring() == old(self).text_ring(),
            final(self).config_spec() == old(self).config_spec(),
            final(self).ready() == old(self).ready(),
            final(self).stats_spec().total_transcriptions as int == min_u64(
                old(self).stats_spec().total_transcriptions as int + results as int,
            ),
            final(self).stats_spec().total_processing_time_ms as int == min_u64(
                old(self).stats_spec().total_processing_time_ms as int + elapsed_ms as int,
            ),
            final(self).stats_spec().average_processing_time_ms as int
                == final(self).stats_spec().total_processing_time_ms as int / (if final(self).stats_spec().total_transcriptions == 0 {
                1
            } else {
                final(self).stats_spec().total_transcriptions as int
            }),
    {
        self.stats.total_transcriptions = self.stats.total_transcriptions.saturating_add(results);
        self.stats.total_processing_time_ms = self.stats.total_processing_time_ms.saturating_add(
            elapsed_ms,
        );
        self.stats.total_audio_samples = self.stats.total_audio_samples.saturating_add(samples);
        let d = if self.stats.total_transcriptions == 0 {
            1
        } else {
            self.stats.total_transcriptions
        };
        self.stats.average_processing_time_ms = self.stats.total_processing_time_ms / d;
    }

    pub fn get_statistics(&self) -> (r: StreamingStats)
        ensures
            r == self.stats_spec(),
    {
        self.stats
    }
}

/// The text ring after `text` is accepted: blank texts are not kept; the ring keeps the
/// newest ten.
pub open spec fn text_ring_after(ring: Seq<Seq<char>>, text: Seq<char>) -> Seq<Seq<char>> {
    if is_blank(text) {
        ring
    } else if ring.len() < MAX_TEXT_SEGMENTS {
        ring.push(text)
    } else {
        ring.push(text).drop_first()
    }
}

/// The segments an engine event carries (none for an error).
pub open spec fn event_segments(event: EngineEvent) -> Seq<EngineSegment> {
    match event {
        EngineEvent::Segments { segments, .. } => segments@,
        EngineEvent::EngineError { .. } => Seq::empty(),
    }
}

pub open spec fn event_elapsed(event: EngineEvent) -> u64 {
    match event {
        EngineEvent::Segments { elapsed_ms, .. } => elapsed_ms,
        EngineEvent::EngineError { elapsed_ms, .. } => elapsed_ms,
    }
}

/// The text a list of segments amounts to.
pub open spec fn attempt_text(segs: Seq<EngineSegment>) -> Seq<char> {
    trimmed(built(texts(segs), segs.len() as int, segs.len() as int))
}

/// One step of a transcription session: the driver `s0` with session `se0` takes `event`,
/// answers `r` and becomes `s1` with session `se1`. An attempt succeeds when the engine gave
/// segments of mean confidence at least the threshold: the result carries their text and
/// confidence, the attempt number and its temperature, and the chunk's samples and the text
/// join the context. Otherwise, past the time limit the chunk fails; with retries left the
/// next attempt runs 100 ms later one temperature step up; else it fails.
pub open spec fn engine_step(
    s0: StreamingWhisperService,
    se0: TranscriptionSession,
    event: EngineEvent,
    r: DriverAction,
    s1: StreamingWhisperService,
    se1: TranscriptionSession,
) -> bool {
    let cfg = s0.config_spec();
    let n = se0.attempt;
    let segs = event_segments(event);
    let ok = event is Segments && segs.len() < 0x1_0000_0000 && mean_confidence(texts(segs))
        >= cfg.confidence_threshold;
    let elapsed = event_elapsed(event);
    let unchanged = s1.audio_ring() == s0.audio_ring() && s1.text_ring() == s0.text_ring();
    &&& s1.wf()
    &&& s1.config_spec() == cfg
    &&& s1.ready() == s0.ready()
    &&& s1.chunker_spec() == s0.chunker_spec()
    &&& ok ==> (r matches DriverAction::Done(res) && res.retry_count == n
        && res.temperature_used == temperature_at(
        cfg.base_temperature,
        cfg.temperature_increment,
        cfg.max_temperature,
        n,
    ) && res.has_context == se0.has_context && res.boundary_type == se0.boundary_type
        && res.chunk_id == se0.chunk_id && res.text@ == attempt_text(segs) && res.confidence as int
        == mean_confidence(texts(segs)) && s1.audio_ring() == keep_last(
        s0.audio_ring() + se0.chunk_samples@,
        cfg.max_context_samples as int,
    ) && s1.text_ring() == text_ring_after(s0.text_ring(), res.text@) && se1.finished)
    &&& !ok && elapsed > cfg.max_processing_time_ms ==> (r is Failed && se1.finished && unchanged)
    &&& !ok && elapsed <= cfg.max_processing_time_ms && n < cfg.max_retries ==> (
    r matches DriverAction::Infer { attempt, temperature, delay_ms } && attempt == n + 1
        && delay_ms == RETRY_DELAY_MS && temperature == temperature_at(
        cfg.base_temperature,
        cfg.temperature_increment,
        cfg.max_temperature,
        (n + 1) as u32,
    ) && se1.attempt == n + 1 && !se1.finished && unchanged)
    &&& !ok && elapsed <= cfg.max_processing_time_ms && n >= cfg.max_retries ==> (r is Failed
        && se1.finished && unchanged)
    &&& se1.attempt <= cfg.max_retries
    &&& se1.chunk_samples == se0.chunk_samples
    &&& se1.chunk_id == se0.chunk_id
    &&& se1.boundary_type == se0.boundary_type
    &&& se1.has_context == se0.has_context
}

/// `min(x, u64::MAX)`.
pub open spec fn min_u64(x: int) -> int {
    if x > u64::MAX as int {
        u64::MAX as int
    } else {
        x
    }
}

pub open spec fn zero_stats() -> StreamingStats {
    StreamingStats {
        total_transcriptions: 0,
        total_processing_time_ms: 0,
        average_processing_time_ms: 0,
        retry_count: 0,
        error_count: 0,
        context_hits: 0,
        total_audio_samples: 0,
    }
}

/// The temperature schedule never decreases and never passes its maximum (once the base
/// is within it).
pub proof fn lemma_temperature_schedule(base: u32, step: u32, max: u32, n: u32, m: u32)
    requires
        n <= m,
        base <= max,
    ensures
        temperature_at(base, step, max, n) <= temperature_at(base, step, max, m),
        temperature_at(base, step, max, m) <= max,
{
    assert((n as int) * (step as int) <= (m as int) * (step as int)) by (nonlinear_arith)
        requires
            n <= m,
            step >= 0,
    ;
}

} // verus!
