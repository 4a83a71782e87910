//! Microphone and loopback VADs side by side, plus a third VAD on their mix.
use vstd::prelude::*;

use crate::features::{
    append_samples, rms_level, rms_level_of, valid_sample, valid_samples, Sample, FULL_SCALE,
    MAX_FRAME_LEN,
};
use crate::vad::{
    fresh_machine, no_totals, run_frames, StreamTotals, StreamingVadConfig, StreamingVadProcessor,
    VadStatistics,
};

verus! {

/// Confidence above which the mixed VAD's speech replaces the per-channel speech.
pub const MIXED_CONFIDENCE: u32 = 700;

/// Mixing gains in tenths, `(mic, loopback)`: the stronger side (RMS above twice the
/// other's) is favoured, otherwise the balance is 0.6 / 0.7.
pub open spec fn gains(mic_level: int, speaker_level: int) -> (int, int) {
    if mic_level > 2 * speaker_level {
        (8, 4)
    } else if speaker_level > 2 * mic_level {
        (4, 8)
    } else {
        (6, 7)
    }
}

/// `x` brought into `[-FULL_SCALE, FULL_SCALE]`.
pub open spec fn clamp_sample(x: int) -> int {
    if x < -(FULL_SCALE as int) {
        -(FULL_SCALE as int)
    } else if x > FULL_SCALE as int {
        FULL_SCALE as int
    } else {
        x
    }
}

/// `n / 10`, rounded toward zero.
pub open spec fn tenth(n: int) -> int {
    if n >= 0 {
        n / 10
    } else {
        -((-n) / 10)
    }
}

/// Sample `i` of the mix, a missing sample counting as 0.
pub open spec fn mixed_at(mic: Seq<Sample>, speaker: Seq<Sample>, g: (int, int), i: int) -> int {
    let a = if i < mic.len() {
        mic[i] as int
    } else {
        0
    };
    let b = if i < speaker.len() {
        speaker[i] as int
    } else {
        0
    };
    clamp_sample(tenth(g.0 * a + g.1 * b))
}

/// Length of the mix: the longer input.
pub open spec fn mix_len(mic: Seq<Sample>, speaker: Seq<Sample>) -> int {
    if mic.len() >= speaker.len() {
        mic.len() as int
    } else {
        speaker.len() as int
    }
}

/// The result of running `input` through a VAD in the state of `v`.
pub open spec fn run_of(v: StreamingVadProcessor, input: Seq<Sample>) -> StreamTotals {
    run_frames(v.config_spec(), v.machine(), v.pending() + input, no_totals()).2
}

/// Three VADs: microphone, loopback and their mix.
pub struct DualChannelVad {
    mic_vad: StreamingVadProcessor,
    speaker_vad: StreamingVadProcessor,
    mixed_vad: StreamingVadProcessor,
}

/// Statistics of the three VADs.
#[derive(Clone, Copy, Debug)]
pub struct DualChannelVadStats {
    pub mic_stats: VadStatistics,
    pub speaker_stats: VadStatistics,
    pub mixed_stats: VadStatistics,
}

/// Mixes the two channels with level-dependent gains and clamps the result.
pub fn mix_channels(mic: &[Sample], speaker: &[Sample]) -> (r: Vec<Sample>)
    requires
        valid_samples(mic@),
        valid_samples(speaker@),
    ensures
        r@.len() == mix_len(mic@, speaker@),
        valid_samples(r@),
        forall|i: int|
            0 <= i < r@.len() ==> #[trigger] r@[i] as int == mixed_at(
                mic@,
                speaker@,
                gains(rms_level(mic@) as int, rms_level(speaker@) as int),
                i,
            ),
{
    let ml = rms_level_of(mic) as i64;
    let sl = rms_level_of(speaker) as i64;
    let (g1, g2): (i64, i64) = if ml > 2 * sl {
        (8, 4)
    } else if sl > 2 * ml {
        (4, 8)
    } else {
        (6, 7)
    };
    let ghost g = gains(rms_level(mic@) as int, rms_level(speaker@) as int);
    assert(g == (g1 as int, g2 as int));
    let n = if mic.len() >= speaker.len() {
        mic.len()
    } else {
        speaker.len()
    };
    let mut out: Vec<Sample> = Vec::new();
    let mut i: usize = 0;
    while i < n
        invariant
            n == mix_len(mic@, speaker@),
            i <= n,
            out@.len() == i,
            valid_samples(mic@),
            valid_samples(speaker@),
            g == (g1 as int, g2 as int),
            0 <= g1 <= 8 && 0 <= g2 <= 8,
            valid_samples(out@),
            forall|j: int|
                0 <= j < i ==> #[trigger] out@[j] as int == mixed_at(mic@, speaker@, g, j),
        decreases n - i,
    {
        let a: i64 = if i < mic.len() {
            proof {
                assert(valid_sample(mic@[i as int]));
            }
            mic[i] as i64
        } else {
            0
        };
        let b: i64 = if i < speaker.len() {
            proof {
                assert(valid_sample(speaker@[i as int]));
            }
            speaker[i] as i64
        } else {
            0
        };
        assert(-8 * 32768 <= g1 * a <= 8 * 32768) by (nonlinear_arith)
            requires
                0 <= g1 <= 8,
                -32768 <= a <= 32768,
        ;
        assert(-8 * 32768 <= g2 * b <= 8 * 32768) by (nonlinear_arith)
            requires
                0 <= g2 <= 8,
                -32768 <= b <= 32768,
        ;
        let num = g1 * a + g2 * b;
        let q: i64 = if num >= 0 {
            ((num as u64) / 10) as i64
        } else {
            -((((-num) as u64) / 10) as i64)
        };
        let v: i64 = if q < -(FULL_SCALE as i64) {
            -(FULL_SCALE as i64)
        } else if q > FULL_SCALE as i64 {
            FULL_SCALE as i64
        } else {
            q
        };
        let ghost before = out@;
        out.push(v as i32);
        proof {
            assert(out@[i as int] as int == mixed_at(mic@, speaker@, g, i as int));
            assert(valid_samples(out@)) by {
                assert forall|j: int| 0 <= j < out@.len() implies valid_sample(#[trigger] out@[j]) by {
                    if j < i {
                        assert(out@[j] == before[j]);
                    }
                }
            }
        }
        i = i + 1;
    }
    out
}

impl DualChannelVad {
    pub closed spec fn mic(&self) -> StreamingVadProcessor {
        self.mic_vad
    }

    pub closed spec fn speaker(&self) -> StreamingVadProcessor {
        self.speaker_vad
    }

    pub closed spec fn mixed(&self) -> StreamingVadProcessor {
        self.mixed_vad
    }

    pub closed spec fn wf(&self) -> bool {
        self.mic_vad.wf() && self.speaker_vad.wf() && self.mixed_vad.wf()
    }

    /// Three VADs at `sample_rate` with 30 ms frames and the standard padding.
    pub fn new(sample_rate: usize) -> (r: Self)
        requires
            400 <= sample_rate <= 1_000_000,
            sample_rate * 30 / 1000 <= MAX_FRAME_LEN,
            sample_rate * 30 / 1000 >= 1,
        ensures
            r.wf(),
            r.mic().config_spec().sample_rate == sample_rate,
    {
        let config = StreamingVadConfig { sample_rate, ..StreamingVadConfig::standard() };
        DualChannelVad {
            mic_vad: StreamingVadProcessor::new(config),
            speaker_vad: StreamingVadProcessor::new(config),
            mixed_vad: StreamingVadProcessor::new(config),
        }
    }

    /// Speech from both channels, microphone first. When both channels have samples, their
    /// mix runs through the third VAD too, and if it reports confidence above 0.7 with some
    /// speech, its speech is returned instead.
    pub fn process_dual_channel(&mut self, mic_samples: &[Sample], speaker_samples: &[Sample]) -> (r:
        Vec<Sample>)
        requires
            old(self).wf(),
            valid_samples(mic_samples@),
            valid_samples(speaker_samples@),
        ensures
            valid_samples(r@),
            final(self).wf(),
            dual_result(*old(self), mic_samples@, speaker_samples@, r@),
    {
        let ghost s0 = *self;
        let mut final_speech: Vec<Sample> = Vec::new();
        if mic_samples.len() > 0 {
            let result = self.mic_vad.process_stream(mic_samples);
            final_speech = result.speech;
        }
        if speaker_samples.len() > 0 {
            let result = self.speaker_vad.process_stream(speaker_samples);
            append_samples(&mut final_speech, result.speech.as_slice());
        }
        proof {
            if mic_samples@.len() == 0 {
                assert(final_speech@ =~= Seq::<Sample>::empty() + final_speech@);
            }
            if speaker_samples@.len() == 0 {
                assert(final_speech@ =~= final_speech@ + Seq::<Sample>::empty());
            }
        }
        if mic_samples.len() > 0 && speaker_samples.len() > 0 {
            let mixed = mix_channels(mic_samples, speaker_samples);
            let result = self.mixed_vad.process_stream(mixed.as_slice());
            proof {
                assert(self.mixed_vad.config_spec() == s0.mixed_vad.config_spec());
                let t = run_of(s0.mixed(), mixed@);
                assert(result.speech@ == t.speech);
                assert(result.confidence == t.last.confidence);
            }
            if result.confidence > MIXED_CONFIDENCE && result.speech.len() > 0 {
                final_speech = result.speech;
            }
        }
        final_speech
    }

    /// Resets all three VADs.
    pub fn reset(&mut self)
        requires
            old(self).wf(),
        ensures
            final(self).wf(),
            final(self).mic().machine() == fresh_machine(old(self).mic().machine().noise_floor),
            final(self).speaker().machine() == fresh_machine(
                old(self).speaker().machine().noise_floor,
            ),
            final(self).mixed().machine() == fresh_machine(old(self).mixed().machine().noise_floor),
            final(self).mic().pending().len() == 0,
            final(self).speaker().pending().len() == 0,
            final(self).mixed().pending().len() == 0,
    {
        self.mic_vad.reset();
        self.speaker_vad.reset();
        self.mixed_vad.reset();
    }

    pub fn get_statistics(&self) -> (r: DualChannelVadStats)
        ensures
            r.mic_stats.frames_processed == self.mic().machine().frames_processed,
            r.speaker_stats.frames_processed == self.speaker().machine().frames_processed,
            r.mixed_stats.frames_processed == self.mixed().machine().frames_processed,
    {
        DualChannelVadStats {
            mic_stats: self.mic_vad.get_statistics(),
            speaker_stats: self.speaker_vad.get_statistics(),
            mixed_stats: self.mixed_vad.get_statistics(),
        }
    }
}

/// What `process_dual_channel` returns for a wrapper in state `d0`: the microphone's speech
/// then the loopback's; when both channels have samples and the VAD on their mix reports
/// confidence above 0.7 with some speech, that speech instead.
pub open spec fn dual_result(d0: DualChannelVad, mic: Seq<Sample>, speaker: Seq<Sample>, r: Seq<Sample>) -> bool
{
    let mic_speech = if mic.len() > 0 {
        run_of(d0.mic(), mic).speech
    } else {
        Seq::empty()
    };
    let speaker_speech = if speaker.len() > 0 {
        run_of(d0.speaker(), speaker).speech
    } else {
        Seq::empty()
    };
    if mic.len() > 0 && speaker.len() > 0 {
        let g = gains(
            rms_level(mic) as int,
            rms_level(speaker) as int,
        );
        exists|mixed: Seq<Sample>|
            #![trigger run_of(d0.mixed(), mixed)]
            mixed.len() == mix_len(mic, speaker) && (forall|i: int|
                0 <= i < mixed.len() ==> #[trigger] mixed[i] as int == mixed_at(
                    mic,
                    speaker,
                    g,
                    i,
                )) && r == if run_of(d0.mixed(), mixed).last.confidence
                > MIXED_CONFIDENCE && run_of(d0.mixed(), mixed).speech.len()
                > 0 {
                run_of(d0.mixed(), mixed).speech
            } else {
                mic_speech + speaker_speech
            }
    } else {
        r == mic_speech + speaker_speech
    }
}

/// Every sample of a mix lies in `[-1, 1]` (as `[-FULL_SCALE, FULL_SCALE]`), whatever the
/// inputs.
pub proof fn lemma_mix_in_range(mic: Seq<Sample>, speaker: Seq<Sample>, g: (int, int), i: int)
    ensures
        -(FULL_SCALE as int) <= mixed_at(mic, speaker, g, i) <= FULL_SCALE as int,
{
}

} // verus!
