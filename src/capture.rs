//! The decisions of a capture stream: what a stream error calls for, an idempotent stop,
//! recovery through the stream's channel, and turning interleaved integer frames into mono
//! samples.
use vstd::prelude::*;

use crate::channel::{ChannelState, ManagedChannel};
use crate::error::AudioError;
use crate::features::{valid_samples, Sample, FULL_SCALE};

verus! {

/// What went wrong in the platform callback.
#[derive(Clone, Copy, Debug, PartialEq, Eq, Structural)]
pub enum StreamErrorKind {
    DeviceNotAvailable,
    Timeout,
    BufferUnderrun,
    BufferOverrun,
    PermissionDenied,
    Other,
}

/// What the capture should do about a stream error.
#[derive(Clone, Copy, Debug, PartialEq, Eq, Structural)]
pub enum CaptureAction {
    /// Transient: restart the stream in place.
    RestartStream,
    /// Permission missing: go on with what works.
    ContinueDegraded,
    /// Unknown: leave it for a later recovery.
    AwaitRecovery,
    /// The stream is stopped: nothing to do.
    Ignore,
}

/// Transient errors: the device may come back.
pub open spec fn is_transient(kind: StreamErrorKind) -> bool {
    kind == StreamErrorKind::DeviceNotAvailable || kind == StreamErrorKind::Timeout || kind
        == StreamErrorKind::BufferUnderrun || kind == StreamErrorKind::BufferOverrun
}

/// The state of a capture stream's lifecycle.
#[derive(Clone, Copy, Debug, PartialEq, Eq, Structural)]
pub struct CaptureState {
    pub disconnected: bool,
    pub stopped: bool,
    pub restart_requests: u32,
}

impl CaptureState {
    pub fn new() -> (r: CaptureState)
        ensures
            r == (CaptureState { disconnected: false, stopped: false, restart_requests: 0 }),
    {
        CaptureState { disconnected: false, stopped: false, restart_requests: 0 }
    }

    /// Transient errors mark the stream disconnected and ask for a restart; a missing
    /// permission lets it go on degraded; other errors mark it disconnected for a later
    /// recovery. A stopped stream ignores errors.
    pub fn on_stream_error(&mut self, kind: StreamErrorKind) -> (r: CaptureAction)
        ensures
            old(self).stopped ==> r == CaptureAction::Ignore && *final(self) == *old(self),
            !old(self).stopped && is_transient(kind) ==> r == CaptureAction::RestartStream
                && final(self).disconnected && final(self).restart_requests == if old(
                self,
            ).restart_requests == u32::MAX {
                u32::MAX
            } else {
                (old(self).restart_requests + 1) as u32
            } && !final(self).stopped,
            !old(self).stopped && kind == StreamErrorKind::PermissionDenied ==> r
                == CaptureAction::ContinueDegraded && *final(self) == *old(self),
            !old(self).stopped && kind == StreamErrorKind::Other ==> r == CaptureAction::AwaitRecovery
                && final(self).disconnected && final(self).restart_requests == old(
                self,
            ).restart_requests && !final(self).stopped,
    {
        if self.stopped {
            return CaptureAction::Ignore;
        }
        match kind {
            StreamErrorKind::DeviceNotAvailable | StreamErrorKind::Timeout
            | StreamErrorKind::BufferUnderrun | StreamErrorKind::BufferOverrun => {
                self.disconnected = true;
                self.restart_requests = self.restart_requests.saturating_add(1);
                CaptureAction::RestartStream
            },
            StreamErrorKind::PermissionDenied => CaptureAction::ContinueDegraded,
            StreamErrorKind::Other => {
                self.disconnected = true;
                CaptureAction::AwaitRecovery
            },
        }
    }

    /// Stops the stream: marks it disconnected and closes its channel. Returns whether this
    /// call did the stopping; a second stop does nothing.
    pub fn stop(&mut self, channel: &mut ManagedChannel<Vec<Sample>>) -> (r: bool)
        requires
            old(channel).wf(),
        ensures
            final(channel).wf(),
            r == !old(self).stopped,
            final(self).stopped,
            r ==> final(self).disconnected,
            r ==> final(channel).state_spec() == ChannelState::Closed,
            !r ==> *final(self) == *old(self) && final(channel).state_spec() == old(
                channel,
            ).state_spec(),
    {
        if self.stopped {
            return false;
        }
        self.disconnected = true;
        self.stopped = true;
        channel.close();
        true
    }

    /// Asks the channel to recover at `now`; on success the stream counts as connected.
    pub fn attempt_recovery(&mut self, channel: &mut ManagedChannel<Vec<Sample>>, now: u64) -> (r:
        Result<(), AudioError>)
        requires
            old(channel).wf(),
        ensures
            final(channel).wf(),
            r is Ok ==> !final(self).disconnected && final(channel).state_spec()
                == ChannelState::Active,
            r is Err ==> *final(self) == *old(self),
            old(channel).state_spec() == ChannelState::Closed ==> r is Err,
    {
        let result = channel.initiate_recovery_at(now);
        if result.is_ok() {
            self.disconnected = false;
        }
        result
    }

    pub fn is_disconnected(&self) -> (r: bool)
        ensures
            r == self.disconnected,
    {
        self.disconnected
    }
}

/// An `i16` sample in fixed point (the same scale).
pub open spec fn from_i16(x: i16) -> int {
    x as int
}

/// An `i32` sample in fixed point: its top 16 bits.
pub open spec fn from_i32(x: i32) -> int {
    (x as int) / 65536
}

/// An `i8` sample in fixed point.
pub open spec fn from_i8(x: i8) -> int {
    (x as int) * 256
}

/// `n / d` rounded toward zero.
pub open spec fn div_toward_zero(n: int, d: int) -> int {
    if n >= 0 {
        n / d
    } else {
        -((-n) / d)
    }
}

/// Frame `f` of `data` averaged over its `channels` samples.
pub open spec fn frame_mean(data: Seq<Sample>, channels: int, f: int) -> int {
    div_toward_zero(frame_sum(data, channels, f, channels), channels)
}

/// Sum of the first `k` samples of frame `f`.
pub open spec fn frame_sum(data: Seq<Sample>, channels: int, f: int, k: int) -> int
    decreases k,
{
    if k <= 0 {
        0
    } else {
        frame_sum(data, channels, f, k - 1) + data[f * channels + k - 1] as int
    }
}

proof fn lemma_frame_sum_bounds(data: Seq<Sample>, channels: int, f: int, k: int)
    requires
        valid_samples(data),
        0 <= k <= channels,
        0 <= f,
        (f + 1) * channels <= data.len(),
    ensures
        -(FULL_SCALE as int) * k <= frame_sum(data, channels, f, k) <= (FULL_SCALE as int) * k,
    decreases k,
{
    if k > 0 {
        lemma_frame_sum_bounds(data, channels, f, k - 1);
        assert(f * channels + k - 1 < (f + 1) * channels) by (nonlinear_arith)
            requires
                k <= channels,
                k > 0,
        ;
        assert(0 <= f * channels + k - 1) by (nonlinear_arith)
            requires
                f >= 0,
                k > 0,
                channels >= k,
        ;
        assert(crate::features::valid_sample(data[f * channels + k - 1]));
    }
}

/// Interleaved `i16` samples, scaled to fixed point.
pub fn scale_i16(data: &[i16]) -> (r: Vec<Sample>)
    ensures
        r@.len() == data@.len(),
        forall|i: int| 0 <= i < data@.len() ==> #[trigger] r@[i] as int == from_i16(data@[i]),
        valid_samples(r@),
{
    let mut out: Vec<Sample> = Vec::new();
    let mut i: usize = 0;
    while i < data.len()
        invariant
            i <= data@.len(),
            out@.len() == i,
            forall|j: int| 0 <= j < i ==> #[trigger] out@[j] as int == from_i16(data@[j]),
        decreases data@.len() - i,
    {
        out.push(data[i] as i32);
        i = i + 1;
    }
    out
}

/// Interleaved `i32` samples, scaled to fixed point.
pub fn scale_i32(data: &[i32]) -> (r: Vec<Sample>)
    ensures
        r@.len() == data@.len(),
        forall|i: int| 0 <= i < data@.len() ==> #[trigger] r@[i] as int == from_i32(data@[i]),
        valid_samples(r@),
{
    let mut out: Vec<Sample> = Vec::new();
    let mut i: usize = 0;
    while i < data.len()
        invariant
            i <= data@.len(),
            out@.len() == i,
            forall|j: int| 0 <= j < i ==> #[trigger] out@[j] as int == from_i32(data@[j]),
            forall|j: int| 0 <= j < i ==> -32768 <= #[trigger] out@[j] <= 32767,
        decreases data@.len() - i,
    {
        let x = data[i] as i64;
        let q: i64 = if x >= 0 {
            x / 65536
        } else {
            -(((-x) + 65535) / 65536)
        };
        assert(q as int == (x as int) / 65536) by (nonlinear_arith)
            requires
                x >= 0 ==> q as int == (x as int) / 65536,
                x < 0 ==> q as int == -(((-(x as int)) + 65535) / 65536),
        ;
        assert(-32768 <= q <= 32767) by (nonlinear_arith)
            requires
                q as int == (x as int) / 65536,
                -0x8000_0000 <= x <= 0x7fff_ffff,
        ;
        out.push(q as i32);
        i = i + 1;
    }
    out
}

/// Interleaved `i8` samples, scaled to fixed point.
pub fn scale_i8(data: &[i8]) -> (r: Vec<Sample>)
    ensures
        r@.len() == data@.len(),
        forall|i: int| 0 <= i < data@.len() ==> #[trigger] r@[i] as int == from_i8(data@[i]),
        valid_samples(r@),
{
    let mut out: Vec<Sample> = Vec::new();
    let mut i: usize = 0;
    while i < data.len()
        invariant
            i <= data@.len(),
            out@.len() == i,
            forall|j: int| 0 <= j < i ==> #[trigger] out@[j] as int == from_i8(data@[j]),
        decreases data@.len() - i,
    {
        out.push((data[i] as i32) * 256);
        i = i + 1;
    }
    out
}

/// Mono from interleaved frames of `channels` samples: each whole frame averaged, a
/// trailing partial frame left out.
pub fn downmix(data: &[Sample], channels: usize) -> (r: Vec<Sample>)
    requires
        valid_samples(data@),
        1 <= channels,
    ensures
        r@.len() == (data@.len() as int) / (channels as int),
        forall|f: int|
            0 <= f < r@.len() ==> #[trigger] r@[f] as int == frame_mean(data@, channels as int, f),
        valid_samples(r@),
{
    let n = data.len();
    let frames = n / channels;
    assert(channels as int <= 0x1_0000_0000_0000_0000) by {
        assert(channels as u64 as int == channels as int);
    }
    let mut out: Vec<Sample> = Vec::new();
    let mut f: usize = 0;
    while f < frames
        invariant
            frames == (data@.len() as int) / (channels as int),
            n == data@.len(),
            1 <= channels,
            channels as int <= 0x1_0000_0000_0000_0000,
            valid_samples(data@),
            f <= frames,
            out@.len() == f,
            forall|g: int|
                0 <= g < f ==> #[trigger] out@[g] as int == frame_mean(data@, channels as int, g),
            valid_samples(out@),
        decreases frames - f,
    {
        assert((f as int + 1) * (channels as int) <= data@.len()) by (nonlinear_arith)
            requires
                f < frames,
                frames == (data@.len() as int) / (channels as int),
                channels >= 1,
        ;
        assert((f as int) * (channels as int) + (channels as int) <= data@.len()) by (nonlinear_arith)
            requires
                (f as int + 1) * (channels as int) <= data@.len(),
        ;
        let base = f * channels;
        let mut sum: i128 = 0;
        let mut k: usize = 0;
        while k < channels
            invariant
                1 <= channels,
            channels as int <= 0x1_0000_0000_0000_0000,
                k <= channels,
                f < frames,
                base == f * channels,
                base as int + channels as int <= data@.len(),
                n == data@.len(),
                (f as int + 1) * (channels as int) <= data@.len(),
                valid_samples(data@),
                sum as int == frame_sum(data@, channels as int, f as int, k as int),
            decreases channels - k,
        {
            proof {
                lemma_frame_sum_bounds(data@, channels as int, f as int, k as int);
            }
            assert(base + k < data@.len()) by (nonlinear_arith)
                requires
                    base == f * channels,
                    k < channels,
                    (f as int + 1) * (channels as int) <= data@.len(),
            ;
            assert(-32768 * (k as int) <= sum <= 32768 * (k as int));
            assert(32768 * (k as int) <= 32768 * 0x1_0000_0000_0000_0000) by (nonlinear_arith)
                requires
                    k <= 0x1_0000_0000_0000_0000,
            ;
            sum = sum + data[base + k] as i128;
            k = k + 1;
        }
        proof {
            lemma_frame_sum_bounds(data@, channels as int, f as int, channels as int);
        }
        let c = channels as i128;
        let mean: i128 = if sum >= 0 {
            sum / c
        } else {
            -((-sum) / c)
        };
        assert(-32768 <= mean <= 32768) by (nonlinear_arith)
            requires
                -32768 * c <= sum <= 32768 * c,
                c >= 1,
                sum >= 0 ==> mean as int == (sum as int) / (c as int),
                sum < 0 ==> mean as int == -((-(sum as int)) / (c as int)),
        ;
        let ghost before = out@;
        out.push(mean as i32);
        proof {
            assert forall|g: int| 0 <= g < out@.len() implies crate::features::valid_sample(
                #[trigger] out@[g],
            ) by {
                if g < f {
                    assert(out@[g] == before[g]);
                }
            }
        }
        f = f + 1;
    }
    out
}

} // verus!
