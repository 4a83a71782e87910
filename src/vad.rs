//! Streaming voice-activity detection: per-frame features, an adaptive noise floor and a
//! Silent / Speaking / HoldOff state machine with pre- and post-speech padding.
//!
//! Levels are RMS values in sample units; the noise floor and thresholds are kept in
//! thousandths of a level unit. Confidences and probabilities are in parts per thousand.
use vstd::prelude::*;

use crate::features::{
    append_samples, copy_samples, detect_pitch, has_low_crossing_rate, isqrt, low_crossing_rate,
    pitch_present, rms_level, rms_level_of, slice_samples, sum_sq, valid_samples, Sample,
    MAX_FRAME_LEN,
};

verus! {

/// Frames that the energy window holds.
pub const ENERGY_WINDOW: usize = 10;

/// A frame level above this counts as high energy (0.005 of full scale).
pub const HIGH_ENERGY_LEVEL: u32 = 164;

/// The last three levels summing above this make the window active (mean above 0.003).
pub const ACTIVE_SUM_OF_THREE: u64 = 294;

/// A frame level below this may be a pause (0.001 of full scale).
pub const PAUSE_LEVEL: u32 = 33;

/// Silence that makes a pause, in milliseconds.
pub const MIN_PAUSE_MS: u64 = 200;

/// Lowest noise floor, in thousandths of a level unit (0.001 of full scale).
pub const MIN_NOISE_FLOOR: u64 = 32768;

/// Bounds of the adaptive threshold, in thousandths of a level unit (0.002 and 0.01).
pub const MIN_ADAPTIVE_THRESHOLD: u64 = 65536;

pub const MAX_ADAPTIVE_THRESHOLD: u64 = 327680;

/// Confidence parts, in parts per thousand.
pub const BASE_CONFIDENCE: u32 = 500;

pub const PITCH_CONFIDENCE: u32 = 300;

pub const ENERGY_CONFIDENCE: u32 = 200;

pub const RATIO_CONFIDENCE: u32 = 100;

/// `a * b`, exactly.
pub fn wide_mul(a: u64, b: u64) -> (r: u128)
    ensures
        r as int == (a as int) * (b as int),
{
    assert((a as int) * (b as int) <= (u64::MAX as int) * (u64::MAX as int)) by (nonlinear_arith)
        requires
            a <= u64::MAX,
            b <= u64::MAX,
    ;
    assert((a as int) * (b as int) >= 0) by (nonlinear_arith);
    (a as u128) * (b as u128)
}

/// Settings of a streaming VAD.
#[derive(Clone, Copy, Debug)]
pub struct StreamingVadConfig {
    pub sample_rate: usize,
    pub frame_duration_ms: u32,
    pub redemption_time_ms: u32,
    pub pre_speech_pad_ms: u32,
    pub post_speech_pad_ms: u32,
    pub min_speech_duration_ms: u32,
    pub adaptive_threshold: bool,
    /// Fixed threshold when the adaptive one is off, in thousandths of a level unit.
    pub energy_threshold: u64,
    /// In parts per thousand.
    pub zero_crossing_threshold: u32,
    pub pitch_detection_enabled: bool,
}

impl StreamingVadConfig {
    /// Samples per frame.
    pub open spec fn frame_len(&self) -> int {
        (self.sample_rate as int) * (self.frame_duration_ms as int) / 1000
    }

    /// Frames of pre-speech padding.
    pub open spec fn pre_pad_frames(&self) -> int {
        self.pre_speech_pad_ms as int / self.frame_duration_ms as int
    }

    pub open spec fn wf(&self) -> bool {
        &&& 400 <= self.sample_rate <= 1_000_000
        &&& 1 <= self.frame_duration_ms <= 10_000
        &&& 1 <= self.frame_len() <= MAX_FRAME_LEN
    }

    /// Samples per frame.
    pub fn frame_samples(&self) -> (r: usize)
        requires
            self.wf(),
        ensures
            r as int == self.frame_len(),
    {
        ((self.sample_rate as u64) * (self.frame_duration_ms as u64) / 1000) as usize
    }

    /// 16 kHz, 30 ms frames, 300 ms before and 500 ms after speech, 500 ms minimum
    /// speech, adaptive threshold (fixed one 0.002), pitch detection on.
    pub fn standard() -> (r: StreamingVadConfig)
        ensures
            r.wf(),
            r.sample_rate == 16000,
            r.frame_duration_ms == 30,
            r.pre_speech_pad_ms == 300,
            r.post_speech_pad_ms == 500,
            r.min_speech_duration_ms == 500,
            r.adaptive_threshold,
            r.energy_threshold == 65536,
            r.pitch_detection_enabled,
    {
        StreamingVadConfig {
            sample_rate: 16000,
            frame_duration_ms: 30,
            redemption_time_ms: 800,
            pre_speech_pad_ms: 300,
            post_speech_pad_ms: 500,
            min_speech_duration_ms: 500,
            adaptive_threshold: true,
            energy_threshold: 65536,
            zero_crossing_threshold: 150,
            pitch_detection_enabled: true,
        }
    }
}

impl Default for StreamingVadConfig {
    fn default() -> (r: StreamingVadConfig)
        ensures
            r.wf(),
            r.sample_rate == 16000 && r.frame_duration_ms == 30,
    {
        StreamingVadConfig::standard()
    }
}

/// What the boundary detector reports of a frame.
#[derive(Clone, Copy, Debug, PartialEq, Eq, Structural)]
pub struct BoundaryInfo {
    /// A pause ends here: the frame length, as a position in the frame.
    pub sentence_boundary: Option<usize>,
    pub is_complete_utterance: bool,
    pub confidence: u32,
    pub speech_probability: u32,
}

/// The report of a stream that held no whole frame.
pub open spec fn empty_boundary() -> BoundaryInfo {
    BoundaryInfo {
        sentence_boundary: None,
        is_complete_utterance: false,
        confidence: 0,
        speech_probability: 0,
    }
}

/// Where the state machine stands.
#[derive(Clone, Copy, Debug, PartialEq, Eq, Structural)]
pub enum VadPhase {
    Silent,
    Speaking,
    HoldOff,
}

/// The state of a VAD that the next frame's result depends on.
pub struct VadMachine {
    pub phase: VadPhase,
    pub pre_ring: Seq<Sample>,
    pub holdoff: Seq<Sample>,
    pub holdoff_frames: u64,
    pub speech_frames: u64,
    pub noise_floor: u64,
    pub recent: Seq<u32>,
    pub high: u32,
    pub low: u32,
    pub silence_frames: u32,
    pub frames_processed: u64,
}

/// What one frame yields.
pub struct FrameOutcome {
    pub speech: Seq<Sample>,
    pub boundary: BoundaryInfo,
    pub level: u32,
}

pub open spec fn sat_inc64(x: u64) -> u64 {
    if x == u64::MAX {
        x
    } else {
        (x + 1) as u64
    }
}

pub open spec fn sat_add64(x: u64, y: int) -> u64 {
    if x + y > u64::MAX {
        u64::MAX
    } else {
        (x + y) as u64
    }
}

pub open spec fn sat_inc32v(x: u32) -> u32 {
    if x == u32::MAX {
        x
    } else {
        (x + 1) as u32
    }
}

pub open spec fn sat_dec32(x: u32) -> u32 {
    if x == 0 {
        0
    } else {
        (x - 1) as u32
    }
}

/// The energy window after a frame of `level`: `(recent, high, low)`.
pub open spec fn tracker_after(recent: Seq<u32>, high: u32, low: u32, level: u32) -> (
    Seq<u32>,
    u32,
    u32,
) {
    let pushed = recent.push(level);
    let (r1, h1, l1) = if pushed.len() > ENERGY_WINDOW {
        if pushed[0] > HIGH_ENERGY_LEVEL {
            (pushed.drop_first(), sat_dec32(high), low)
        } else {
            (pushed.drop_first(), high, sat_dec32(low))
        }
    } else {
        (pushed, high, low)
    };
    if level > HIGH_ENERGY_LEVEL {
        (r1, sat_inc32v(h1), l1)
    } else {
        (r1, h1, sat_inc32v(l1))
    }
}

/// The last three levels show activity.
pub open spec fn window_active(recent: Seq<u32>) -> bool {
    recent.len() >= 3 && (recent[recent.len() - 1] as int) + (recent[recent.len() - 2] as int) + (
    recent[recent.len() - 3] as int) > ACTIVE_SUM_OF_THREE as int
}

/// Speech probability in parts per thousand: the share of high-energy frames.
pub open spec fn probability(high: u32, low: u32) -> u32 {
    if high as int + low as int == 0 {
        0
    } else {
        (1000 * (high as int) / (high as int + low as int)) as u32
    }
}

/// The share of high-energy frames exceeds 0.3.
pub open spec fn likely_speech(high: u32, low: u32) -> bool {
    10 * (high as int) > 3 * (high as int + low as int)
}

/// The boundary report and the energy window after `frame`, given `silence` frames of
/// silence before it: `(info, recent, high, low, silence)`.
pub open spec fn detect_spec(
    cfg: StreamingVadConfig,
    recent: Seq<u32>,
    high: u32,
    low: u32,
    silence: u32,
    frame: Seq<Sample>,
) -> (BoundaryInfo, Seq<u32>, u32, u32, u32) {
    let level = rms_level(frame) as u32;
    let (r, h, l) = tracker_after(recent, high, low, level);
    let silent = level < PAUSE_LEVEL && low_crossing_rate(frame);
    let s = if silent {
        sat_inc32v(silence)
    } else {
        0
    };
    let pause = (s as int) * (cfg.frame_duration_ms as int) >= MIN_PAUSE_MS as int;
    let active = window_active(r);
    let pitch = cfg.pitch_detection_enabled && pitch_present(cfg.sample_rate as int, frame);
    let conf = BASE_CONFIDENCE as int + (if pitch {
        PITCH_CONFIDENCE as int
    } else {
        0
    }) + (if active {
        ENERGY_CONFIDENCE as int
    } else {
        0
    }) + (if 2 * (h as int) > h as int + l as int {
        RATIO_CONFIDENCE as int
    } else {
        0
    });
    let info = BoundaryInfo {
        sentence_boundary: if pause {
            Some(frame.len() as usize)
        } else {
            None
        },
        is_complete_utterance: pause && active,
        confidence: if conf > 1000 {
            1000
        } else {
            conf as u32
        },
        speech_probability: probability(h, l),
    };
    (info, r, h, l, s)
}

/// The noise floor after a frame of `level`: an average with weight 0.01 on frames below
/// twice the floor, never below the minimum.
pub open spec fn noise_after(floor: u64, level: u32) -> u64 {
    if 1000 * (level as int) < 2 * (floor as int) {
        let f = (99 * (floor as int) + 1000 * (level as int)) / 100;
        if f < MIN_NOISE_FLOOR as int {
            MIN_NOISE_FLOOR
        } else {
            f as u64
        }
    } else {
        floor
    }
}

/// The threshold that a frame's level must pass, in thousandths of a level unit.
pub open spec fn threshold_for(cfg: StreamingVadConfig, floor: u64) -> int {
    if cfg.adaptive_threshold {
        let t = 3 * (floor as int);
        if t < MIN_ADAPTIVE_THRESHOLD as int {
            MIN_ADAPTIVE_THRESHOLD as int
        } else if t > MAX_ADAPTIVE_THRESHOLD as int {
            MAX_ADAPTIVE_THRESHOLD as int
        } else {
            t
        }
    } else {
        cfg.energy_threshold as int
    }
}

/// The last `k` samples of `s` (all of them if there are fewer).
pub open spec fn tail(s: Seq<Sample>, k: int) -> Seq<Sample> {
    if s.len() <= k {
        s
    } else {
        s.subrange(s.len() - k, s.len() as int)
    }
}

/// The pre-speech ring after a silent frame: capped at twice the padding, dropping whole
/// frames from the front.
pub open spec fn ring_after(cfg: StreamingVadConfig, ring: Seq<Sample>, frame: Seq<Sample>) -> Seq<
    Sample,
> {
    let pushed = ring + frame;
    if pushed.len() > 2 * cfg.pre_pad_frames() * cfg.frame_len() {
        pushed.subrange(frame.len() as int, pushed.len() as int)
    } else {
        pushed
    }
}

/// The machine after a frame went to the hold-off queue: back to `Silent` once the queue
/// covers the post-speech padding, emitting it as trailing speech if the utterance was long
/// enough, and staying in `HoldOff` otherwise.
pub open spec fn settle_holdoff(cfg: StreamingVadConfig, m: VadMachine) -> (VadMachine, Seq<Sample>) {
    if (m.holdoff_frames as int) * (cfg.frame_duration_ms as int) >= cfg.post_speech_pad_ms as int {
        let emitted = if (m.speech_frames as int) * (cfg.frame_duration_ms as int)
            >= cfg.min_speech_duration_ms as int {
            m.holdoff
        } else {
            Seq::empty()
        };
        (
            VadMachine {
                phase: VadPhase::Silent,
                holdoff: Seq::empty(),
                holdoff_frames: 0,
                speech_frames: 0,
                ..m
            },
            emitted,
        )
    } else {
        (VadMachine { phase: VadPhase::HoldOff, ..m }, Seq::empty())
    }
}

/// The state-machine step on a frame: `start` is the onset condition (loud and likely
/// speech), `cont` the condition to stay in speech (loud or likely speech).
pub open spec fn transition(
    cfg: StreamingVadConfig,
    m: VadMachine,
    frame: Seq<Sample>,
    start: bool,
    cont: bool,
) -> (VadMachine, Seq<Sample>) {
    match m.phase {
        VadPhase::Silent => {
            if start {
                (
                    VadMachine {
                        phase: VadPhase::Speaking,
                        pre_ring: Seq::empty(),
                        holdoff: Seq::empty(),
                        holdoff_frames: 0,
                        speech_frames: 1,
                        ..m
                    },
                    tail(m.pre_ring, cfg.pre_pad_frames() * cfg.frame_len()) + frame,
                )
            } else {
                (VadMachine { pre_ring: ring_after(cfg, m.pre_ring, frame), ..m }, Seq::empty())
            }
        },
        VadPhase::Speaking => {
            if cont {
                (VadMachine { speech_frames: sat_inc64(m.speech_frames), ..m }, frame)
            } else {
                settle_holdoff(cfg, VadMachine { holdoff: frame, holdoff_frames: 1, ..m })
            }
        },
        VadPhase::HoldOff => {
            if start {
                (
                    VadMachine {
                        phase: VadPhase::Speaking,
                        holdoff: Seq::empty(),
                        holdoff_frames: 0,
                        speech_frames: sat_add64(m.speech_frames, m.holdoff_frames as int + 1),
                        ..m
                    },
                    m.holdoff + frame,
                )
            } else {
                settle_holdoff(
                    cfg,
                    VadMachine {
                        holdoff: m.holdoff + frame,
                        holdoff_frames: sat_inc64(m.holdoff_frames),
                        ..m
                    },
                )
            }
        },
    }
}

/// Everything that one frame does to the machine, and what it yields.
pub open spec fn frame_step(cfg: StreamingVadConfig, m: VadMachine, frame: Seq<Sample>) -> (
    VadMachine,
    FrameOutcome,
) {
    let level = rms_level(frame) as u32;
    let (info, r, h, l, s) = detect_spec(cfg, m.recent, m.high, m.low, m.silence_frames, frame);
    let floor = noise_after(m.noise_floor, level);
    let loud = 1000 * (level as int) > threshold_for(cfg, floor);
    let likely = likely_speech(h, l);
    let m1 = VadMachine {
        recent: r,
        high: h,
        low: l,
        silence_frames: s,
        noise_floor: floor,
        frames_processed: sat_inc64(m.frames_processed),
        ..m
    };
    let (m2, speech) = transition(cfg, m1, frame, loud && likely, loud || likely);
    (m2, FrameOutcome { speech, boundary: info, level })
}

/// What a run over several frames has gathered.
pub struct StreamTotals {
    pub speech: Seq<Sample>,
    pub last: BoundaryInfo,
    pub level_sum: int,
    pub frames: nat,
}

/// Runs every whole frame at the front of `pending` through the machine. Returns the
/// machine, the samples left over and the totals.
pub open spec fn run_frames(
    cfg: StreamingVadConfig,
    m: VadMachine,
    pending: Seq<Sample>,
    acc: StreamTotals,
) -> (VadMachine, Seq<Sample>, StreamTotals)
    decreases pending.len(),
{
    if cfg.frame_len() <= 0 || pending.len() < cfg.frame_len() {
        (m, pending, acc)
    } else {
        let frame = pending.subrange(0, cfg.frame_len());
        let (m2, out) = frame_step(cfg, m, frame);
        run_frames(
            cfg,
            m2,
            pending.subrange(cfg.frame_len(), pending.len() as int),
            StreamTotals {
                speech: acc.speech + out.speech,
                last: out.boundary,
                level_sum: acc.level_sum + out.level as int,
                frames: acc.frames + 1,
            },
        )
    }
}

pub open spec fn no_totals() -> StreamTotals {
    StreamTotals { speech: Seq::empty(), last: empty_boundary(), level_sum: 0, frames: 0 }
}

/// The energy window of the boundary detector.
pub struct EnergyTracker {
    recent: Vec<u32>,
    high_energy_count: u32,
    low_energy_count: u32,
}

/// Consecutive silent frames, for pause detection.
pub struct PauseDetector {
    silence_frames: u32,
}

/// Feature tracking across frames: energy window, pauses and pitch.
pub struct SpeechBoundaryDetector {
    energy_tracker: EnergyTracker,
    pause_detector: PauseDetector,
    sample_rate: usize,
    frame_duration_ms: u32,
    pitch_detection_enabled: bool,
}

impl SpeechBoundaryDetector {
    pub closed spec fn recent(&self) -> Seq<u32> {
        self.energy_tracker.recent@
    }

    pub closed spec fn high(&self) -> u32 {
        self.energy_tracker.high_energy_count
    }

    pub closed spec fn low(&self) -> u32 {
        self.energy_tracker.low_energy_count
    }

    pub closed spec fn silence(&self) -> u32 {
        self.pause_detector.silence_frames
    }

    /// The settings that the detector reads.
    pub closed spec fn settings(&self) -> (usize, u32, bool) {
        (self.sample_rate, self.frame_duration_ms, self.pitch_detection_enabled)
    }

    pub open spec fn matches_config(&self, cfg: StreamingVadConfig) -> bool {
        self.settings() == (cfg.sample_rate, cfg.frame_duration_ms, cfg.pitch_detection_enabled)
    }

    pub closed spec fn wf(&self) -> bool {
        self.energy_tracker.recent@.len() <= ENERGY_WINDOW
    }

    /// A detector with an empty window, for frames of `frame_duration_ms` at `sample_rate`.
    pub fn new(sample_rate: usize, frame_duration_ms: u32) -> (r: Self)
        ensures
            r.wf(),
            r.recent() == Seq::<u32>::empty(),
            r.high() == 0 && r.low() == 0 && r.silence() == 0,
            r.settings() == (sample_rate, frame_duration_ms, true),
    {
        let recent: Vec<u32> = Vec::new();
        assert(recent@ =~= Seq::<u32>::empty());
        SpeechBoundaryDetector {
            energy_tracker: EnergyTracker {
                recent,
                high_energy_count: 0,
                low_energy_count: 0,
            },
            pause_detector: PauseDetector { silence_frames: 0 },
            sample_rate,
            frame_duration_ms,
            pitch_detection_enabled: true,
        }
    }

    fn with_config(cfg: StreamingVadConfig) -> (r: Self)
        ensures
            r.wf(),
            r.recent() == Seq::<u32>::empty(),
            r.high() == 0 && r.low() == 0 && r.silence() == 0,
            r.matches_config(cfg),
    {
        let mut d = Self::new(cfg.sample_rate, cfg.frame_duration_ms);
        d.pitch_detection_enabled = cfg.pitch_detection_enabled;
        d
    }

    fn track(&mut self, level: u32)
        requires
            old(self).wf(),
        ensures
            final(self).wf(),
            (final(self).recent(), final(self).high(), final(self).low()) == tracker_after(
                old(self).recent(),
                old(self).high(),
                old(self).low(),
                level,
            ),
            final(self).silence() == old(self).silence(),
            final(self).settings() == old(self).settings(),
    {
        self.energy_tracker.recent.push(level);
        if self.energy_tracker.recent.len() > ENERGY_WINDOW {
            let oldest = self.energy_tracker.recent.remove(0);
            if oldest > HIGH_ENERGY_LEVEL {
                self.energy_tracker.high_energy_count =
                    self.energy_tracker.high_energy_count.saturating_sub(1);
            } else {
                self.energy_tracker.low_energy_count =
                    self.energy_tracker.low_energy_count.saturating_sub(1);
            }
        }
        if level > HIGH_ENERGY_LEVEL {
            self.energy_tracker.high_energy_count =
                self.energy_tracker.high_energy_count.saturating_add(1);
        } else {
            self.energy_tracker.low_energy_count =
                self.energy_tracker.low_energy_count.saturating_add(1);
        }
    }

    fn is_active(&self) -> (r: bool)
        ensures
            r == window_active(self.recent()),
    {
        let n = self.energy_tracker.recent.len();
        if n < 3 {
            return false;
        }
        let s = self.energy_tracker.recent[n - 1] as u64 + self.energy_tracker.recent[n - 2] as u64
            + self.energy_tracker.recent[n - 3] as u64;
        s > ACTIVE_SUM_OF_THREE
    }

    /// Feeds a frame to the detector and reports on it.
    pub fn detect_boundaries(&mut self, frame: &[Sample]) -> (r: BoundaryInfo)
        requires
            old(self).wf(),
            valid_samples(frame@),
        ensures
            final(self).wf(),
            final(self).settings() == old(self).settings(),
            ({
                let (sr, ms, pitch) = old(self).settings();
                let cfg = StreamingVadConfig {
                    sample_rate: sr,
                    frame_duration_ms: ms,
                    pitch_detection_enabled: pitch,
                    ..StreamingVadConfig::standard_spec()
                };
                (r, final(self).recent(), final(self).high(), final(self).low(), final(self).silence()) == detect_spec(
                    cfg,
                    old(self).recent(),
                    old(self).high(),
                    old(self).low(),
                    old(self).silence(),
                    frame@,
                )
            }),
    {
        let level = rms_level_of(frame);
        self.track(level);
        let silent = level < PAUSE_LEVEL && has_low_crossing_rate(frame);
        if silent {
            self.pause_detector.silence_frames = self.pause_detector.silence_frames.saturating_add(
                1,
            );
        } else {
            self.pause_detector.silence_frames = 0;
        }
        let pause = wide_mul(self.pause_detector.silence_frames as u64, self.frame_duration_ms as u64)
            >= MIN_PAUSE_MS as u128;
        let active = self.is_active();
        let pitch = self.pitch_detection_enabled && detect_pitch(self.sample_rate, frame);
        let h = self.energy_tracker.high_energy_count;
        let l = self.energy_tracker.low_energy_count;
        let mut conf: u32 = BASE_CONFIDENCE;
        if pitch {
            conf = conf + PITCH_CONFIDENCE;
        }
        if active {
            conf = conf + ENERGY_CONFIDENCE;
        }
        if 2 * (h as u64) > h as u64 + l as u64 {
            conf = conf + RATIO_CONFIDENCE;
        }
        if conf > 1000 {
            conf = 1000;
        }
        let total = h as u64 + l as u64;
        let prob: u32 = if total == 0 {
            0
        } else {
            assert(1000 * (h as int) / (total as int) <= 1000) by (nonlinear_arith)
                requires
                    h <= total,
                    total > 0,
            ;
            (1000 * (h as u64) / total) as u32
        };
        BoundaryInfo {
            sentence_boundary: if pause {
                Some(frame.len())
            } else {
                None
            },
            is_complete_utterance: pause && active,
            confidence: conf,
            speech_probability: prob,
        }
    }

    /// A report counts as a complete utterance when it says so with confidence above 0.6.
    pub fn is_complete_utterance(&self, info: &BoundaryInfo) -> (r: bool)
        ensures
            r == (info.is_complete_utterance && info.confidence > 600),
    {
        info.is_complete_utterance && info.confidence > 600
    }

    fn clear(&mut self)
        ensures
            final(self).wf(),
            final(self).recent() == Seq::<u32>::empty(),
            final(self).high() == 0 && final(self).low() == 0 && final(self).silence() == 0,
            final(self).settings() == old(self).settings(),
    {
        self.energy_tracker.recent = Vec::new();
        assert(self.energy_tracker.recent@ =~= Seq::<u32>::empty());
        self.energy_tracker.high_energy_count = 0;
        self.energy_tracker.low_energy_count = 0;
        self.pause_detector.silence_frames = 0;
    }
}

impl StreamingVadConfig {
    pub open spec fn standard_spec() -> StreamingVadConfig {
        StreamingVadConfig {
            sample_rate: 16000,
            frame_duration_ms: 30,
            redemption_time_ms: 800,
            pre_speech_pad_ms: 300,
            post_speech_pad_ms: 500,
            min_speech_duration_ms: 500,
            adaptive_threshold: true,
            energy_threshold: 65536,
            zero_crossing_threshold: 150,
            pitch_detection_enabled: true,
        }
    }
}

/// The result of feeding samples to a streaming VAD.
#[derive(Clone, Debug)]
pub struct StreamingResult {
    /// Speech emitted by the frames of this call, in order, padding included.
    pub speech: Vec<Sample>,
    pub is_speaking: bool,
    pub confidence: u32,
    pub boundary_info: BoundaryInfo,
    /// In thousandths of a level unit.
    pub noise_floor: u64,
    /// Mean level of the frames of this call (0 if none).
    pub energy_level: u32,
}

/// Counters of a streaming VAD.
#[derive(Clone, Copy, Debug)]
pub struct VadStatistics {
    pub frames_processed: u64,
    pub current_noise_floor: u64,
    pub is_currently_speaking: bool,
    pub buffer_size: usize,
    pub speech_buffer_size: usize,
}

/// A VAD that keeps its state across calls.
pub struct StreamingVadProcessor {
    config: StreamingVadConfig,
    boundary_detector: SpeechBoundaryDetector,
    noise_floor: u64,
    frame_buffer: Vec<Sample>,
    pre_ring: Vec<Sample>,
    holdoff: Vec<Sample>,
    holdoff_frames: u64,
    speech_frames: u64,
    phase: VadPhase,
    frame_count: u64,
}

impl StreamingVadProcessor {
    pub closed spec fn config_spec(&self) -> StreamingVadConfig {
        self.config
    }

    pub closed spec fn machine(&self) -> VadMachine {
        VadMachine {
            phase: self.phase,
            pre_ring: self.pre_ring@,
            holdoff: self.holdoff@,
            holdoff_frames: self.holdoff_frames,
            speech_frames: self.speech_frames,
            noise_floor: self.noise_floor,
            recent: self.boundary_detector.recent(),
            high: self.boundary_detector.high(),
            low: self.boundary_detector.low(),
            silence_frames: self.boundary_detector.silence(),
            frames_processed: self.frame_count,
        }
    }

    /// Samples waiting for a whole frame.
    pub closed spec fn pending(&self) -> Seq<Sample> {
        self.frame_buffer@
    }

    pub closed spec fn wf(&self) -> bool {
        &&& self.config.wf()
        &&& self.boundary_detector.wf()
        &&& self.boundary_detector.matches_config(self.config)
        &&& valid_samples(self.frame_buffer@)
        &&& valid_samples(self.pre_ring@)
        &&& valid_samples(self.holdoff@)
    }

    /// A VAD in the silent state with empty rings and the minimum noise floor.
    pub fn new(config: StreamingVadConfig) -> (r: Self)
        requires
            config.wf(),
        ensures
            r.wf(),
            r.config_spec() == config,
            r.machine() == fresh_machine(MIN_NOISE_FLOOR),
            r.pending().len() == 0,
    {
        StreamingVadProcessor {
            config,
            boundary_detector: SpeechBoundaryDetector::with_config(config),
            noise_floor: MIN_NOISE_FLOOR,
            frame_buffer: Vec::new(),
            pre_ring: Vec::new(),
            holdoff: Vec::new(),
            holdoff_frames: 0,
            speech_frames: 0,
            phase: VadPhase::Silent,
            frame_count: 0,
        }
    }

    /// Runs one frame through features, noise floor and state machine.
    fn process_frame(&mut self, frame: &[Sample]) -> (r: (Vec<Sample>, BoundaryInfo, u32))
        requires
            old(self).wf(),
            valid_samples(frame@),
            frame@.len() == old(self).config_spec().frame_len(),
        ensures
            final(self).wf(),
            final(self).config_spec() == old(self).config_spec(),
            final(self).pending() == old(self).pending(),
            ({
                let (m, out) = frame_step(old(self).config_spec(), old(self).machine(), frame@);
                final(self).machine() == m && r.0@ == out.speech && r.1 == out.boundary && r.2
                    == out.level
            }),
            r.2 <= 32768,
            valid_samples(r.0@),
    {
        let ghost m0 = self.machine();
        let ghost cfg = self.config;
        let level = rms_level_of(frame);
        let info = self.boundary_detector.detect_boundaries(frame);
        proof {
            assert(cfg == StreamingVadConfig {
                sample_rate: cfg.sample_rate,
                frame_duration_ms: cfg.frame_duration_ms,
                pitch_detection_enabled: cfg.pitch_detection_enabled,
                ..cfg
            });
        }
        self.noise_floor = Self::next_noise_floor(self.noise_floor, level);
        let threshold = Self::threshold(&self.config, self.noise_floor);
        let loud = 1000 * (level as u64) > threshold;
        let h = self.boundary_detector.energy_tracker.high_energy_count;
        let l = self.boundary_detector.energy_tracker.low_energy_count;
        let likely = 10 * (h as u64) > 3 * (h as u64 + l as u64);
        self.frame_count = self.frame_count.saturating_add(1);
        let speech = self.transition(frame, loud && likely, loud || likely);
        (speech, info, level)
    }

    fn next_noise_floor(floor: u64, level: u32) -> (r: u64)
        ensures
            r == noise_after(floor, level),
    {
        if 1000 * (level as u128) < 2 * (floor as u128) {
            let f = (99 * (floor as u128) + 1000 * (level as u128)) / 100;
            if f < MIN_NOISE_FLOOR as u128 {
                MIN_NOISE_FLOOR
            } else {
                assert(f <= u64::MAX) by (nonlinear_arith)
                    requires
                        f == (99 * (floor as int) + 1000 * (level as int)) / 100,
                        1000 * (level as int) < 2 * (floor as int),
                        floor <= u64::MAX,
                ;
                f as u64
            }
        } else {
            floor
        }
    }

    fn threshold(cfg: &StreamingVadConfig, floor: u64) -> (r: u64)
        ensures
            r as int == threshold_for(*cfg, floor),
    {
        if cfg.adaptive_threshold {
            let t = 3 * (floor as u128);
            if t < MIN_ADAPTIVE_THRESHOLD as u128 {
                MIN_ADAPTIVE_THRESHOLD
            } else if t > MAX_ADAPTIVE_THRESHOLD as u128 {
                MAX_ADAPTIVE_THRESHOLD
            } else {
                t as u64
            }
        } else {
            cfg.energy_threshold
        }
    }

    fn settle(&mut self) -> (r: Vec<Sample>)
        requires
            old(self).wf(),
        ensures
            final(self).wf(),
            final(self).config == old(self).config,
            final(self).frame_buffer == old(self).frame_buffer,
            final(self).boundary_detector == old(self).boundary_detector,
            ({
                let (m, out) = settle_holdoff(old(self).config, old(self).machine());
                final(self).machine() == m && r@ == out
            }),
            valid_samples(r@),
    {
        let cfg = self.config;
        if wide_mul(self.holdoff_frames, cfg.frame_duration_ms as u64)
            >= cfg.post_speech_pad_ms as u128 {
            let long_enough = wide_mul(self.speech_frames, cfg.frame_duration_ms as u64)
                >= cfg.min_speech_duration_ms as u128;
            let held = copy_samples(self.holdoff.as_slice());
            self.holdoff = Vec::new();
            self.phase = VadPhase::Silent;
            self.holdoff_frames = 0;
            self.speech_frames = 0;
            if long_enough {
                held
            } else {
                Vec::new()
            }
        } else {
            self.phase = VadPhase::HoldOff;
            Vec::new()
        }
    }

    fn transition(&mut self, frame: &[Sample], start: bool, cont: bool) -> (r: Vec<Sample>)
        requires
            old(self).wf(),
            frame@.len() == old(self).config.frame_len(),
            valid_samples(frame@),
        ensures
            final(self).wf(),
            final(self).config == old(self).config,
            final(self).frame_buffer == old(self).frame_buffer,
            final(self).boundary_detector == old(self).boundary_detector,
            final(self).noise_floor == old(self).noise_floor,
            final(self).frame_count == old(self).frame_count,
            ({
                let (m, out) = transition(old(self).config, old(self).machine(), frame@, start, cont);
                final(self).machine() == m && r@ == out
            }),
            valid_samples(r@),
    {
        let cfg = self.config;
        let fl = cfg.frame_samples();
        match self.phase {
            VadPhase::Silent => {
                if start {
                    let pad = (cfg.pre_speech_pad_ms / cfg.frame_duration_ms) as usize;
                    let pad_samples: u128 = wide_mul(pad as u64, fl as u64);
                    let n = self.pre_ring.len();
                    let from = if (n as u128) <= pad_samples {
                        0
                    } else {
                        n - pad_samples as usize
                    };
                    let mut out = slice_samples(self.pre_ring.as_slice(), from, n);
                    append_samples(&mut out, frame);
                    proof {
                        let k = cfg.pre_pad_frames() * cfg.frame_len();
                        assert(pad_samples as int == k);
                        if n as int > k {
                            assert(tail(self.pre_ring@, k) == self.pre_ring@.subrange(
                                from as int,
                                n as int,
                            ));
                        } else {
                            assert(self.pre_ring@.subrange(0, n as int) =~= self.pre_ring@);
                        }
                    }
                    self.pre_ring = Vec::new();
                    self.holdoff = Vec::new();
                    self.holdoff_frames = 0;
                    self.speech_frames = 1;
                    self.phase = VadPhase::Speaking;
                    out
                } else {
                    let pad = (cfg.pre_speech_pad_ms / cfg.frame_duration_ms) as u64;
                    append_samples(&mut self.pre_ring, frame);
                    let n = self.pre_ring.len();
                    let cap = wide_mul(pad, fl as u64);
                    assert(cap <= 0x1_0000_0000_0000_0000) by (nonlinear_arith)
                        requires
                            cap as int == (pad as int) * (fl as int),
                            pad <= u32::MAX,
                            fl <= 65536,
                    ;
                    assert(2 * cfg.pre_pad_frames() * cfg.frame_len() == 2 * (cap as int)) by (nonlinear_arith)
                        requires
                            cap as int == (pad as int) * (fl as int),
                            pad as int == cfg.pre_pad_frames(),
                            fl as int == cfg.frame_len(),
                    ;
                    if (n as u128) > 2 * cap {
                        self.pre_ring = slice_samples(self.pre_ring.as_slice(), frame.len(), n);
                    }
                    Vec::new()
                }
            },
            VadPhase::Speaking => {
                if cont {
                    self.speech_frames = self.speech_frames.saturating_add(1);
                    copy_samples(frame)
                } else {
                    self.holdoff = copy_samples(frame);
                    self.holdoff_frames = 1;
                    self.settle()
                }
            },
            VadPhase::HoldOff => {
                if start {
                    let mut out = copy_samples(self.holdoff.as_slice());
                    self.holdoff = Vec::new();
                    append_samples(&mut out, frame);
                    let add = (self.holdoff_frames as u128) + 1;
                    let total = (self.speech_frames as u128) + add;
                    self.speech_frames = if total > u64::MAX as u128 {
                        u64::MAX
                    } else {
                        total as u64
                    };
                    self.holdoff_frames = 0;
                    self.phase = VadPhase::Speaking;
                    out
                } else {
                    append_samples(&mut self.holdoff, frame);
                    self.holdoff_frames = self.holdoff_frames.saturating_add(1);
                    self.settle()
                }
            },
        }
    }

    /// Feeds `samples`: whole frames are run in order, the rest waits for the next call.
    /// The result gathers the speech of those frames, the last frame's report and their
    /// mean level.
    pub fn process_stream(&mut self, samples: &[Sample]) -> (r: StreamingResult)
        requires
            old(self).wf(),
            valid_samples(samples@),
        ensures
            final(self).wf(),
            final(self).config_spec() == old(self).config_spec(),
            ({
                let (m, rest, t) = run_frames(
                    old(self).config_spec(),
                    old(self).machine(),
                    old(self).pending() + samples@,
                    no_totals(),
                );
                &&& final(self).machine() == m
                &&& final(self).pending() == rest
                &&& r.speech@ == t.speech
                &&& r.boundary_info == t.last
                &&& r.confidence == t.last.confidence
                &&& r.is_speaking == (m.phase != VadPhase::Silent)
                &&& r.noise_floor == m.noise_floor
                &&& r.energy_level as int == if t.frames == 0 {
                    0
                } else {
                    t.level_sum / (t.frames as int)
                }
            }),
            valid_samples(r.speech@),
    {
        let fl = self.config.frame_samples();
        let mut buf = copy_samples(self.frame_buffer.as_slice());
        self.frame_buffer = Vec::new();
        append_samples(&mut buf, samples);
        let ghost all = buf@;
        let ghost m0 = self.machine();
        let ghost cfg = self.config;
        let mut speech: Vec<Sample> = Vec::new();
        let mut last = BoundaryInfo {
            sentence_boundary: None,
            is_complete_utterance: false,
            confidence: 0,
            speech_probability: 0,
        };
        let mut level_sum: u128 = 0;
        let mut frames: u64 = 0;
        let mut pos: usize = 0;
        proof {
            assert(all.subrange(0, all.len() as int) =~= all);
        }
        while buf.len() - pos >= fl
            invariant
                self.wf(),
                self.config == cfg,
                self.frame_buffer@.len() == 0,
                buf@ == all,
                valid_samples(all),
                fl as int == cfg.frame_len(),
                pos <= all.len(),
                frames <= pos,
                level_sum <= (frames as int) * 32768,
                valid_samples(speech@),
                run_frames(cfg, m0, all, no_totals()) == run_frames(
                    cfg,
                    self.machine(),
                    all.subrange(pos as int, all.len() as int),
                    StreamTotals {
                        speech: speech@,
                        last,
                        level_sum: level_sum as int,
                        frames: frames as nat,
                    },
                ),
            decreases all.len() - pos,
        {
            let frame = slice_samples(buf.as_slice(), pos, pos + fl);
            proof {
                let rest = all.subrange(pos as int, all.len() as int);
                assert(rest.subrange(0, fl as int) =~= frame@);
                assert(rest.subrange(fl as int, rest.len() as int) =~= all.subrange(
                    pos + fl,
                    all.len() as int,
                ));
                assert(valid_samples(frame@)) by {
                    assert forall|i: int| 0 <= i < frame@.len() implies crate::features::valid_sample(
                        #[trigger] frame@[i],
                    ) by {
                        assert(frame@[i] == all[pos + i]);
                    }
                }
            }
            let (s, info, level) = self.process_frame(frame.as_slice());
            proof {
                lemma_valid_concat(speech@, s@);
            }
            append_samples(&mut speech, s.as_slice());
            last = info;
            assert(level_sum + level <= (frames as int + 1) * 32768) by (nonlinear_arith)
                requires
                    level_sum <= (frames as int) * 32768,
                    level <= 32768,
            ;
            assert((frames as int + 1) * 32768 <= 0x1_0000_0000_0000_0000 * 32768) by (nonlinear_arith)
                requires
                    frames < pos + fl,
                    pos + fl <= usize::MAX,
            ;
            level_sum = level_sum + level as u128;
            frames = frames + 1;
            pos = pos + fl;
        }
        proof {
            let rest = all.subrange(pos as int, all.len() as int);
            assert(rest.len() < cfg.frame_len());
        }
        let rest = slice_samples(buf.as_slice(), pos, buf.len());
        proof {
            let r0 = all.subrange(pos as int, all.len() as int);
            assert(r0 =~= rest@);
            assert(valid_samples(rest@)) by {
                assert forall|i: int| 0 <= i < rest@.len() implies crate::features::valid_sample(
                    #[trigger] rest@[i],
                ) by {
                    assert(rest@[i] == all[pos + i]);
                }
            }
        }
        self.frame_buffer = rest;
        let energy_level = if frames == 0 {
            0
        } else {
            assert(level_sum / (frames as u128) <= 32768) by (nonlinear_arith)
                requires
                    level_sum <= (frames as int) * 32768,
                    frames > 0,
            ;
            (level_sum / (frames as u128)) as u32
        };
        StreamingResult {
            speech,
            is_speaking: self.phase != VadPhase::Silent,
            confidence: last.confidence,
            boundary_info: last,
            noise_floor: self.noise_floor,
            energy_level,
        }
    }

    /// Back to the silent state with empty rings and no pending samples. The noise floor
    /// and the settings stay.
    pub fn reset(&mut self)
        requires
            old(self).wf(),
        ensures
            final(self).wf(),
            final(self).config_spec() == old(self).config_spec(),
            final(self).machine() == fresh_machine(old(self).machine().noise_floor),
            final(self).pending().len() == 0,
    {
        self.phase = VadPhase::Silent;
        self.frame_buffer = Vec::new();
        self.pre_ring = Vec::new();
        self.holdoff = Vec::new();
        self.holdoff_frames = 0;
        self.speech_frames = 0;
        self.frame_count = 0;
        self.boundary_detector.clear();
    }

    pub fn config(&self) -> (r: StreamingVadConfig)
        ensures
            r == self.config_spec(),
    {
        self.config
    }

    /// Takes new settings and resets.
    pub fn update_config(&mut self, config: StreamingVadConfig)
        requires
            old(self).wf(),
            config.wf(),
        ensures
            final(self).wf(),
            final(self).config_spec() == config,
            final(self).machine() == fresh_machine(old(self).machine().noise_floor),
            final(self).pending().len() == 0,
    {
        self.config = config;
        self.boundary_detector = SpeechBoundaryDetector::with_config(config);
        self.reset();
    }

    pub fn get_statistics(&self) -> (r: VadStatistics)
        ensures
            r.frames_processed == self.machine().frames_processed,
            r.current_noise_floor == self.machine().noise_floor,
            r.is_currently_speaking == (self.machine().phase != VadPhase::Silent),
            r.buffer_size == self.pending().len(),
            r.speech_buffer_size as int == if self.machine().pre_ring.len()
                + self.machine().holdoff.len() > usize::MAX {
                usize::MAX as int
            } else {
                (self.machine().pre_ring.len() + self.machine().holdoff.len()) as int
            },
    {
        StreamingVadProcessor::stats_of(self)
    }

    fn stats_of(v: &StreamingVadProcessor) -> (r: VadStatistics)
        ensures
            r.frames_processed == v.machine().frames_processed,
            r.current_noise_floor == v.machine().noise_floor,
            r.is_currently_speaking == (v.machine().phase != VadPhase::Silent),
            r.buffer_size == v.pending().len(),
            r.speech_buffer_size as int == if v.machine().pre_ring.len() + v.machine().holdoff.len()
                > usize::MAX {
                usize::MAX as int
            } else {
                (v.machine().pre_ring.len() + v.machine().holdoff.len()) as int
            },
    {
        let a = v.pre_ring.len() as u128 + v.holdoff.len() as u128;
        VadStatistics {
            frames_processed: v.frame_count,
            current_noise_floor: v.noise_floor,
            is_currently_speaking: v.phase != VadPhase::Silent,
            buffer_size: v.frame_buffer.len(),
            speech_buffer_size: if a > usize::MAX as u128 {
                usize::MAX
            } else {
                a as usize
            },
        }
    }
}

/// Joining two runs of in-range samples gives in-range samples.
pub proof fn lemma_valid_concat(a: Seq<Sample>, b: Seq<Sample>)
    requires
        valid_samples(a),
        valid_samples(b),
    ensures
        valid_samples(a + b),
{
    assert forall|i: int| 0 <= i < (a + b).len() implies crate::features::valid_sample(
        #[trigger] (a + b)[i],
    ) by {
        if i < a.len() {
            assert((a + b)[i] == a[i]);
        } else {
            assert((a + b)[i] == b[i - a.len()]);
        }
    }
}

/// The machine of a VAD that has seen nothing, with noise floor `floor`.
pub open spec fn fresh_machine(floor: u64) -> VadMachine {
    VadMachine {
        phase: VadPhase::Silent,
        pre_ring: Seq::empty(),
        holdoff: Seq::empty(),
        holdoff_frames: 0,
        speech_frames: 0,
        noise_floor: floor,
        recent: Seq::empty(),
        high: 0,
        low: 0,
        silence_frames: 0,
        frames_processed: 0,
    }
}

/// At the onset of speech the VAD emits the last `pre_pad_frames` frames of its ring (all of
/// them if it holds fewer), then the frame itself.
pub proof fn lemma_onset_carries_pre_pad(
    cfg: StreamingVadConfig,
    m: VadMachine,
    frame: Seq<Sample>,
)
    requires
        cfg.wf(),
        m.phase == VadPhase::Silent,
        frame_step(cfg, m, frame).0.phase == VadPhase::Speaking,
    ensures
        ({
            let k = cfg.pre_pad_frames() * cfg.frame_len();
            let lead = if m.pre_ring.len() <= k {
                0
            } else {
                m.pre_ring.len() - k
            };
            &&& frame_step(cfg, m, frame).1.speech == m.pre_ring.subrange(
                lead,
                m.pre_ring.len() as int,
            ) + frame
            &&& m.pre_ring.len() - lead <= k
        }),
{
    let k = cfg.pre_pad_frames() * cfg.frame_len();
    assert(k >= 0) by (nonlinear_arith)
        requires
            cfg.pre_pad_frames() >= 0,
            cfg.frame_len() >= 0,
            k == cfg.pre_pad_frames() * cfg.frame_len(),
    ;
    if m.pre_ring.len() <= k {
        assert(m.pre_ring.subrange(0, m.pre_ring.len() as int) =~= m.pre_ring);
    }
}

/// A reset VAD is in the same state as a new one with the same noise floor, so two VADs
/// with the same settings that are reset at the same noise floor decide the same way on
/// the same samples.
pub proof fn lemma_reset_replays(
    a: StreamingVadProcessor,
    b: StreamingVadProcessor,
    samples: Seq<Sample>,
)
    requires
        a.config_spec() == b.config_spec(),
        a.machine() == fresh_machine(a.machine().noise_floor),
        b.machine() == fresh_machine(a.machine().noise_floor),
        a.pending().len() == 0,
        b.pending().len() == 0,
    ensures
        run_frames(a.config_spec(), a.machine(), a.pending() + samples, no_totals()) == run_frames(
            b.config_spec(),
            b.machine(),
            b.pending() + samples,
            no_totals(),
        ),
{
    assert(a.pending() + samples =~= b.pending() + samples);
}

/// All samples of `s` are zero.
pub open spec fn all_zero(s: Seq<Sample>) -> bool {
    forall|i: int| 0 <= i < s.len() ==> #[trigger] s[i] == 0
}

proof fn lemma_zero_sum_sq(s: Seq<Sample>)
    requires
        all_zero(s),
    ensures
        sum_sq(s) == 0,
    decreases s.len(),
{
    if s.len() > 0 {
        assert(s[s.len() - 1] == 0);
        assert(all_zero(s.drop_last())) by {
            assert forall|i: int| 0 <= i < s.drop_last().len() implies #[trigger] s.drop_last()[i] == 0 by {
                assert(s.drop_last()[i] == s[i]);
            }
        }
        lemma_zero_sum_sq(s.drop_last());
        assert(s.last() == 0);
        assert((s.last() as int) * (s.last() as int) == 0);
        assert(sum_sq(s) == sum_sq(s.drop_last()) + (s.last() as int) * (s.last() as int));
    } else {
        assert(sum_sq(s) == 0);
    }
}

/// A silent VAD fed a frame of pure silence stays silent and emits nothing.
pub proof fn lemma_silent_frame_emits_nothing(cfg: StreamingVadConfig, m: VadMachine, frame: Seq<Sample>)
    requires
        m.phase == VadPhase::Silent,
        all_zero(frame),
    ensures
        frame_step(cfg, m, frame).0.phase == VadPhase::Silent,
        frame_step(cfg, m, frame).1.speech.len() == 0,
{
    lemma_zero_sum_sq(frame);
    if frame.len() > 0 {
        assert(sum_sq(frame) / (frame.len() as int) == 0);
    }
    assert(rms_level(frame) == 0) by {
        if frame.len() > 0 {
            assert(isqrt(0) == 0);
        }
    }
    let floor = noise_after(m.noise_floor, 0);
    assert(threshold_for(cfg, floor) >= 0);
}

/// Pure silence fed to a silent VAD, in any amount, yields no speech and leaves it silent.
pub proof fn lemma_silence_emits_nothing(
    cfg: StreamingVadConfig,
    m: VadMachine,
    pending: Seq<Sample>,
    acc: StreamTotals,
)
    requires
        m.phase == VadPhase::Silent,
        all_zero(pending),
    ensures
        run_frames(cfg, m, pending, acc).0.phase == VadPhase::Silent,
        run_frames(cfg, m, pending, acc).2.speech == acc.speech,
    decreases pending.len(),
{
    if cfg.frame_len() <= 0 || pending.len() < cfg.frame_len() {
    } else {
        let frame = pending.subrange(0, cfg.frame_len());
        assert(all_zero(frame)) by {
            assert forall|i: int| 0 <= i < frame.len() implies #[trigger] frame[i] == 0 by {
                assert(frame[i] == pending[i]);
            }
        }
        lemma_silent_frame_emits_nothing(cfg, m, frame);
        let (m2, out) = frame_step(cfg, m, frame);
        let rest = pending.subrange(cfg.frame_len(), pending.len() as int);
        assert(all_zero(rest)) by {
            assert forall|i: int| 0 <= i < rest.len() implies #[trigger] rest[i] == 0 by {
                assert(rest[i] == pending[cfg.frame_len() + i]);
            }
        }
        assert(acc.speech + out.speech =~= acc.speech);
        lemma_silence_emits_nothing(
            cfg,
            m2,
            rest,
            StreamTotals {
                speech: acc.speech + out.speech,
                last: out.boundary,
                level_sum: acc.level_sum + out.level as int,
                frames: acc.frames + 1,
            },
        );
    }
}

} // verus!
