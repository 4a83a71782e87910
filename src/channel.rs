//! Broadcast channel with a buffered fallback, a health monitor and backoff recovery.
use vstd::prelude::*;

use crate::buffer::{lemma_buffer_bounds, AdaptiveBuffer, OverflowStrategy};
use crate::clock::now_millis;
use crate::error::{pow2, sat_inc32, AudioError};
use crate::text::join2;
use tokio::sync::broadcast::{Receiver, Sender};

verus! {

#[verifier::external_type_specification]
#[verifier::external_body]
#[verifier::reject_recursive_types(T)]
pub struct ExSender<T>(Sender<T>);

#[verifier::external_type_specification]
#[verifier::external_body]
#[verifier::reject_recursive_types(T)]
pub struct ExReceiver<T>(Receiver<T>);

/// Relies on tokio's `broadcast::Sender::new`: a sender with no receiver yet. It panics
/// on a capacity of 0 or above `usize::MAX >> 1`, which `requires` leaves out.
#[verifier::external_body]
fn new_sender<T>(capacity: usize) -> (r: Sender<T>)
    requires
        0 < capacity <= usize::MAX / 2,
{
    Sender::new(capacity)
}

/// Relies on tokio's `broadcast::Sender::send`: it fails only when no receiver is
/// subscribed, and then hands the value back unchanged in `SendError`.
#[verifier::external_body]
fn broadcast_send<T>(sender: &Sender<T>, value: T) -> (r: Option<T>)
    ensures
        r matches Some(v) ==> v == value,
{
    match sender.send(value) {
        Ok(_) => None,
        Err(e) => Some(e.0),
    }
}

/// Relies on tokio's `broadcast::Sender::subscribe`: a receiver of the values sent after
/// the call.
#[verifier::external_body]
fn broadcast_subscribe<T>(sender: &Sender<T>) -> (r: Receiver<T>) {
    sender.subscribe()
}

/// Most recovery attempts that the backoff allows.
pub const MAX_RECOVERY_ATTEMPTS: u32 = 10;

/// Consecutive errors after which a channel counts as unhealthy.
pub const UNHEALTHY_AFTER_ERRORS: u32 = 3;

/// Lifecycle of a managed channel. `Closed` is terminal.
#[derive(Clone, Copy, Debug, PartialEq, Eq, Structural)]
pub enum ChannelState {
    Active,
    Recovering,
    Failed,
    Closed,
    Initializing,
}

/// Recovery settings that a channel is configured with.
#[derive(Clone, Copy, Debug, PartialEq, Eq, Structural)]
pub enum RecoveryStrategy {
    ExponentialBackoff { base_delay_ms: u64, max_delay_ms: u64, max_retries: u32 },
    FixedDelay { delay_ms: u64, max_retries: u32 },
    /// No automatic recovery.
    Disabled,
}

/// The wait after the `attempts`-th recovery: `2^min(attempts, 10)` seconds.
pub open spec fn recovery_backoff_ms(attempts: u32) -> int {
    let e = if attempts < 10 {
        attempts
    } else {
        10u32
    };
    (pow2(e as nat) * 1000) as int
}

/// `a - b`, or 0 when `b > a`.
pub open spec fn elapsed(a: u64, b: u64) -> u64 {
    if a >= b {
        (a - b) as u64
    } else {
        0
    }
}

/// Activity, errors and recovery attempts of a channel. Times are milliseconds since the
/// Unix epoch.
#[derive(Clone, Copy, Debug)]
pub struct HealthMonitor {
    pub last_activity: u64,
    pub error_count: u32,
    pub recovery_attempts: u32,
    pub last_recovery_attempt: u64,
    pub is_healthy: bool,
}

impl HealthMonitor {
    /// A healthy monitor with no errors or attempts, whose last activity is now.
    pub fn new() -> (r: HealthMonitor)
        ensures
            r.error_count == 0,
            r.recovery_attempts == 0,
            r.last_recovery_attempt == 0,
            r.is_healthy,
    {
        HealthMonitor::new_at(now_millis())
    }

    /// A healthy monitor with no errors or attempts, whose last activity is `now`.
    pub fn new_at(now: u64) -> (r: HealthMonitor)
        ensures
            r == (HealthMonitor {
                last_activity: now,
                error_count: 0,
                recovery_attempts: 0,
                last_recovery_attempt: 0,
                is_healthy: true,
            }),
    {
        HealthMonitor {
            last_activity: now,
            error_count: 0,
            recovery_attempts: 0,
            last_recovery_attempt: 0,
            is_healthy: true,
        }
    }

    /// Records activity now: healthy again, error count cleared.
    pub fn record_activity(&mut self)
        ensures
            final(self).is_healthy,
            final(self).error_count == 0,
            final(self).recovery_attempts == old(self).recovery_attempts,
            final(self).last_recovery_attempt == old(self).last_recovery_attempt,
    {
        self.record_activity_at(now_millis());
    }

    /// Records activity at `now`: healthy again, error count cleared.
    pub fn record_activity_at(&mut self, now: u64)
        ensures
            *final(self) == (HealthMonitor {
                last_activity: now,
                error_count: 0,
                is_healthy: true,
                ..*old(self)
            }),
    {
        self.last_activity = now;
        self.is_healthy = true;
        self.error_count = 0;
    }

    /// Counts an error; from the third consecutive one on the monitor is unhealthy.
    pub fn record_error(&mut self)
        ensures
            final(self).error_count == sat_inc32(old(self).error_count),
            final(self).is_healthy == (old(self).is_healthy && final(self).error_count
                < UNHEALTHY_AFTER_ERRORS),
            final(self).last_activity == old(self).last_activity,
            final(self).recovery_attempts == old(self).recovery_attempts,
            final(self).last_recovery_attempt == old(self).last_recovery_attempt,
    {
        self.error_count = self.error_count.saturating_add(1);
        if self.error_count >= UNHEALTHY_AFTER_ERRORS {
            self.is_healthy = false;
        }
    }

    /// Counts a recovery attempt made now.
    pub fn record_recovery_attempt(&mut self)
        ensures
            final(self).recovery_attempts == sat_inc32(old(self).recovery_attempts),
            final(self).last_activity == old(self).last_activity,
            final(self).error_count == old(self).error_count,
            final(self).is_healthy == old(self).is_healthy,
    {
        self.record_recovery_attempt_at(now_millis());
    }

    /// Counts a recovery attempt made at `now`.
    pub fn record_recovery_attempt_at(&mut self, now: u64)
        ensures
            *final(self) == (HealthMonitor {
                recovery_attempts: sat_inc32(old(self).recovery_attempts),
                last_recovery_attempt: now,
                ..*old(self)
            }),
    {
        self.recovery_attempts = self.recovery_attempts.saturating_add(1);
        self.last_recovery_attempt = now;
    }

    pub fn is_healthy(&self) -> (r: bool)
        ensures
            r == self.is_healthy,
    {
        self.is_healthy
    }

    /// Milliseconds since the last activity, read from the clock.
    pub fn time_since_last_activity(&self) -> (r: u64) {
        self.time_since_last_activity_at(now_millis())
    }

    /// Milliseconds from the last activity to `now` (0 if `now` is earlier).
    pub fn time_since_last_activity_at(&self, now: u64) -> (r: u64)
        ensures
            r == elapsed(now, self.last_activity),
    {
        now.saturating_sub(self.last_activity)
    }

    /// Whether the backoff allows a recovery attempt now.
    pub fn should_attempt_recovery(&self) -> (r: bool)
        ensures
            self.recovery_attempts > MAX_RECOVERY_ATTEMPTS ==> !r,
    {
        self.should_attempt_recovery_at(now_millis())
    }

    /// Whether the backoff allows a recovery attempt at `now`: at most 10 attempts so far,
    /// and at least `2^min(attempts, 10)` seconds since the last one.
    pub fn should_attempt_recovery_at(&self, now: u64) -> (r: bool)
        ensures
            r == (self.recovery_attempts <= MAX_RECOVERY_ATTEMPTS && elapsed(
                now,
                self.last_recovery_attempt,
            ) >= recovery_backoff_ms(self.recovery_attempts)),
    {
        if self.recovery_attempts > MAX_RECOVERY_ATTEMPTS {
            return false;
        }
        let mut p: u64 = 1;
        let mut i: u32 = 0;
        while i < self.recovery_attempts
            invariant
                self.recovery_attempts <= MAX_RECOVERY_ATTEMPTS,
                i <= self.recovery_attempts,
                p as nat == pow2(i as nat),
                p <= 1024,
            decreases self.recovery_attempts - i,
        {
            proof {
                lemma_pow2_small(i as nat);
            }
            p = p * 2;
            i = i + 1;
        }
        let wait = p * 1000;
        now.saturating_sub(self.last_recovery_attempt) >= wait
    }
}

proof fn lemma_pow2_small(i: nat)
    requires
        i < 10,
    ensures
        pow2(i) <= 512,
        pow2(i + 1) == 2 * pow2(i),
    decreases i,
{
    reveal_with_fuel(pow2, 11);
    if i > 0 {
        lemma_pow2_small((i - 1) as nat);
    }
}

/// A snapshot of a channel's health.
#[derive(Clone, Copy, Debug)]
pub struct ChannelHealthMetrics {
    pub state: ChannelState,
    pub is_healthy: bool,
    pub error_count: u32,
    pub recovery_attempts: u32,
    pub time_since_last_activity_ms: u64,
}

/// A broadcast channel that buffers what no subscriber could take.
#[verifier::reject_recursive_types(T)]
pub struct ManagedChannel<T> {
    sender: Option<Sender<T>>,
    state: ChannelState,
    health_monitor: HealthMonitor,
    recovery_strategy: RecoveryStrategy,
    buffer: AdaptiveBuffer<T>,
    channel_id: String,
    capacity: usize,
    /// Every item that went to the backing buffer, in order.
    buffered_log: Ghost<Seq<T>>,
    /// How many of those left the buffer through `drain_buffered`.
    drained: Ghost<nat>,
    /// How many of those the buffer dropped from its head.
    dropped: Ghost<nat>,
}

impl<T> ManagedChannel<T> {
    pub closed spec fn state_spec(&self) -> ChannelState {
        self.state
    }

    pub closed spec fn health(&self) -> HealthMonitor {
        self.health_monitor
    }

    pub closed spec fn buffered(&self) -> Seq<T> {
        self.buffer.contents()
    }

    pub closed spec fn backing(&self) -> AdaptiveBuffer<T> {
        self.buffer
    }

    pub closed spec fn capacity_spec(&self) -> usize {
        self.capacity
    }

    pub closed spec fn id(&self) -> Seq<char> {
        self.channel_id@
    }

    pub closed spec fn log(&self) -> Seq<T> {
        self.buffered_log@
    }

    pub closed spec fn drained_count(&self) -> nat {
        self.drained@
    }

    pub closed spec fn dropped_count(&self) -> nat {
        self.dropped@
    }

    pub closed spec fn wf(&self) -> bool {
        &&& self.buffer.wf()
        &&& self.buffer.strategy() == OverflowStrategy::DropOldest
        &&& 0 < self.capacity <= usize::MAX / 4
        &&& (self.sender is None <==> self.state == ChannelState::Closed)
        &&& self.drained@ + self.dropped@ + self.buffer.contents().len() == self.buffered_log@.len()
        &&& self.buffer.contents() == self.buffered_log@.subrange(
            (self.drained@ + self.dropped@) as int,
            self.buffered_log@.len() as int,
        )
        &&& self.buffer.metrics_view().total_overflow_events as int == if self.dropped@
            >= u64::MAX as nat {
            u64::MAX as int
        } else {
            self.dropped@ as int
        }
    }

    /// A channel of `capacity` in state `Initializing`, backed by a `DropOldest` buffer
    /// of `capacity` to `2 * capacity` items.
    pub fn new(capacity: usize, recovery_strategy: RecoveryStrategy, channel_id: String) -> (r:
        Self)
        requires
            0 < capacity <= usize::MAX / 4,
        ensures
            r.wf(),
            r.state_spec() == ChannelState::Initializing,
            r.health().is_healthy,
            r.health().error_count == 0,
            r.health().recovery_attempts == 0,
            r.buffered().len() == 0,
            r.backing().capacity() == capacity,
            r.backing().min_size() == capacity,
            r.backing().max_size() == 2 * capacity,
            r.capacity_spec() == capacity,
            r.id() == channel_id@,
            r.log().len() == 0,
    {
        let buffer = AdaptiveBuffer::with_bounds(
            capacity,
            capacity,
            capacity * 2,
            OverflowStrategy::DropOldest,
        );
        proof {
            assert(buffer.contents() =~= Seq::<T>::empty().subrange(0, 0));
        }
        ManagedChannel {
            sender: Some(new_sender(capacity)),
            state: ChannelState::Initializing,
            health_monitor: HealthMonitor::new(),
            recovery_strategy,
            buffer,
            channel_id,
            capacity,
            buffered_log: Ghost(Seq::empty()),
            drained: Ghost(0),
            dropped: Ghost(0),
        }
    }

    /// Broadcasts `data`. With no subscriber the item goes to the backing buffer instead;
    /// a delivery records activity and makes the channel `Active`. A closed channel refuses.
    pub fn send(&mut self, data: T) -> (r: Result<(), AudioError>)
        requires
            old(self).wf(),
        ensures
            send_step(*old(self), data, r, *final(self)),
    {
        match &self.sender {
            None => Err(AudioError::channel_closed(self.channel_id.as_str())),
            Some(sender) => {
                match broadcast_send(sender, data) {
                    None => {
                        self.health_monitor.record_activity();
                        self.state = ChannelState::Active;
                        Ok(())
                    },
                    Some(back) => {
                        self.buffer_item(back);
                        Ok(())
                    },
                }
            },
        }
    }

    /// Puts `item` in the backing buffer and keeps the record of buffered items.
    fn buffer_item(&mut self, item: T)
        requires
            old(self).wf(),
        ensures
            final(self).wf(),
            final(self).log() == old(self).log().push(item),
            final(self).buffered() == old(self).backing().pushed(item),
            final(self).state == old(self).state,
            final(self).health_monitor == old(self).health_monitor,
            final(self).capacity == old(self).capacity,
            final(self).channel_id == old(self).channel_id,
            final(self).drained == old(self).drained,
            final(self).sender == old(self).sender,
    {
        let ghost before = self.buffer;
        let ghost drops = self.buffer.push_drops_head();
        let ghost log0 = self.buffered_log@;
        let ghost d0 = (self.drained@ + self.dropped@) as int;
        let pushed = self.buffer.push(item);
        proof {
            lemma_buffer_bounds(&before);
            assert(!before.push_refused());
            assert(pushed is Ok);
            self.buffered_log = Ghost(log0.push(item));
            if drops {
                self.dropped = Ghost(self.dropped@ + 1);
            }
            let d = (self.drained@ + self.dropped@) as int;
            let l = self.buffered_log@;
            assert(before.contents() == log0.subrange(d0, log0.len() as int));
            if drops {
                assert(before.contents().drop_first().push(item) =~= l.subrange(d, l.len() as int));
            } else {
                assert(before.contents().push(item) =~= l.subrange(d, l.len() as int));
            }
        }
    }

    /// A receiver of what is sent from now on; refused once the channel is closed.
    pub fn subscribe(&self) -> (r: Result<Receiver<T>, AudioError>)
        requires
            self.wf(),
        ensures
            r is Err <==> self.state_spec() == ChannelState::Closed,
    {
        match &self.sender {
            Some(sender) => Ok(broadcast_subscribe(sender)),
            None => Err(AudioError::channel_closed(self.channel_id.as_str())),
        }
    }

    /// Takes every buffered item out, oldest first.
    pub fn drain_buffered(&mut self) -> (r: Vec<T>)
        requires
            old(self).wf(),
        ensures
            final(self).wf(),
            r@ == old(self).buffered(),
            final(self).buffered().len() == 0,
            final(self).log() == old(self).log(),
            final(self).state_spec() == old(self).state_spec(),
            final(self).health() == old(self).health(),
            final(self).drained_count() == old(self).drained_count() + old(self).buffered().len(),
            final(self).dropped_count() == old(self).dropped_count(),
    {
        let mut out: Vec<T> = Vec::new();
        let ghost start = self.buffer.contents();
        while self.buffer.len() > 0
            invariant
                self.wf(),
                out@ + self.buffer.contents() == start,
                self.state == old(self).state,
                self.health_monitor == old(self).health_monitor,
                self.buffered_log == old(self).buffered_log,
                self.dropped == old(self).dropped,
                self.drained@ + self.buffer.contents().len() == old(self).drained@ + start.len(),
                self.capacity == old(self).capacity,
                self.channel_id == old(self).channel_id,
            decreases self.buffer.contents().len(),
        {
            let ghost c0 = self.buffer.contents();
            let item = self.buffer.pop();
            match item {
                Some(x) => {
                    proof {
                        self.drained = Ghost(self.drained@ + 1);
                        let d = (self.drained@ + self.dropped@) as int;
                        let l = self.buffered_log@;
                        assert(self.buffer.contents() =~= l.subrange(d, l.len() as int));
                        assert(out@.push(x) + self.buffer.contents() =~= out@ + c0);
                    }
                    out.push(x);
                },
                None => {},
            }
        }
        proof {
            assert(out@ =~= out@ + self.buffer.contents());
        }
        out
    }

    /// Number of items waiting in the backing buffer.
    pub fn buffered_len(&self) -> (r: usize)
        requires
            self.wf(),
        ensures
            r == self.buffered().len(),
    {
        self.buffer.len()
    }

    /// Items dropped from the backing buffer's head so far.
    pub fn overflow_events(&self) -> (r: u64)
        requires
            self.wf(),
        ensures
            r as int == if self.dropped_count() >= u64::MAX as nat {
                u64::MAX as int
            } else {
                self.dropped_count() as int
            },
    {
        self.buffer.metrics().total_overflow_events
    }

    /// Counts an error of the channel; once the monitor turns unhealthy the channel is
    /// `Failed`, unless it is closed.
    pub fn record_error(&mut self)
        requires
            old(self).wf(),
        ensures
            final(self).wf(),
            final(self).buffered() == old(self).buffered(),
            final(self).log() == old(self).log(),
            final(self).capacity_spec() == old(self).capacity_spec(),
            final(self).id() == old(self).id(),
            final(self).health().error_count == sat_inc32(old(self).health().error_count),
            final(self).health().is_healthy == (old(self).health().is_healthy && final(self).health().error_count < UNHEALTHY_AFTER_ERRORS),
            final(self).health().recovery_attempts == old(self).health().recovery_attempts,
            final(self).health().last_recovery_attempt == old(self).health().last_recovery_attempt,
            final(self).state_spec() == (if old(self).state_spec() == ChannelState::Closed {
                ChannelState::Closed
            } else if !final(self).health().is_healthy {
                ChannelState::Failed
            } else {
                old(self).state_spec()
            }),
    {
        self.health_monitor.record_error();
        if self.state != ChannelState::Closed && !self.health_monitor.is_healthy {
            self.state = ChannelState::Failed;
        }
    }

    /// A snapshot of the channel's health, timed by the clock.
    pub fn get_health(&self) -> (r: ChannelHealthMetrics)
        ensures
            r.state == self.state_spec(),
            r.is_healthy == self.health().is_healthy,
            r.error_count == self.health().error_count,
            r.recovery_attempts == self.health().recovery_attempts,
    {
        ChannelHealthMetrics {
            state: self.state,
            is_healthy: self.health_monitor.is_healthy,
            error_count: self.health_monitor.error_count,
            recovery_attempts: self.health_monitor.recovery_attempts,
            time_since_last_activity_ms: self.health_monitor.time_since_last_activity(),
        }
    }

    /// The same as `get_health`.
    pub fn health_metrics(&self) -> (r: ChannelHealthMetrics)
        ensures
            r.state == self.state_spec(),
            r.is_healthy == self.health().is_healthy,
            r.error_count == self.health().error_count,
            r.recovery_attempts == self.health().recovery_attempts,
    {
        self.get_health()
    }

    pub fn is_healthy(&self) -> (r: bool)
        ensures
            r == self.health().is_healthy,
    {
        self.health_monitor.is_healthy
    }

    pub fn state(&self) -> (r: ChannelState)
        ensures
            r == self.state_spec(),
    {
        self.state
    }

    /// Closes the channel for good: no further sends or subscriptions.
    pub fn close(&mut self)
        requires
            old(self).wf(),
        ensures
            final(self).wf(),
            final(self).state_spec() == ChannelState::Closed,
            final(self).buffered() == old(self).buffered(),
            final(self).log() == old(self).log(),
            final(self).health() == old(self).health(),
            final(self).capacity_spec() == old(self).capacity_spec(),
            final(self).id() == old(self).id(),
    {
        self.sender = None;
        self.state = ChannelState::Closed;
    }

    /// Recovery at the current time; see `initiate_recovery_at`.
    pub fn initiate_recovery(&mut self) -> (r: Result<(), AudioError>)
        requires
            old(self).wf(),
        ensures
            final(self).wf(),
            old(self).state_spec() == ChannelState::Closed ==> r is Err && final(self).state_spec() == ChannelState::Closed,
            r is Ok ==> final(self).state_spec() == ChannelState::Active,
            r is Ok ==> final(self).health().recovery_attempts == sat_inc32(
                old(self).health().recovery_attempts,
            ) && final(self).health().is_healthy,
            r is Err ==> final(self).state_spec() == old(self).state_spec() && final(self).health()
                == old(self).health(),
            final(self).buffered() == old(self).buffered(),
            final(self).log() == old(self).log(),
            final(self).capacity_spec() == old(self).capacity_spec(),
    {
        self.initiate_recovery_at(now_millis())
    }

    /// When the backoff allows an attempt at `now` and the channel is not closed: makes a
    /// fresh sender, marks the monitor healthy, counts the attempt and ends `Active`.
    /// Otherwise nothing changes and the call fails.
    pub fn initiate_recovery_at(&mut self, now: u64) -> (r: Result<(), AudioError>)
        requires
            old(self).wf(),
        ensures
            final(self).wf(),
            r is Ok <==> (old(self).state_spec() != ChannelState::Closed && old(self).health().recovery_attempts <= MAX_RECOVERY_ATTEMPTS && elapsed(
                now,
                old(self).health().last_recovery_attempt,
            ) >= recovery_backoff_ms(old(self).health().recovery_attempts)),
            r is Ok ==> final(self).state_spec() == ChannelState::Active && final(self).health()
                == (HealthMonitor {
                recovery_attempts: sat_inc32(old(self).health().recovery_attempts),
                last_recovery_attempt: now,
                error_count: 0,
                is_healthy: true,
                ..old(self).health()
            }),
            r is Err ==> final(self).state_spec() == old(self).state_spec() && final(self).health()
                == old(self).health(),
            final(self).buffered() == old(self).buffered(),
            final(self).log() == old(self).log(),
            final(self).capacity_spec() == old(self).capacity_spec(),
            final(self).id() == old(self).id(),
    {
        if self.state == ChannelState::Closed {
            return Err(AudioError::channel_closed(self.channel_id.as_str()));
        }
        if !self.health_monitor.should_attempt_recovery_at(now) {
            return Err(AudioError::channel_send_failed(
                join2("Recovery not needed or too early for ", self.channel_id.as_str()),
            ));
        }
        self.health_monitor.record_recovery_attempt_at(now);
        self.state = ChannelState::Recovering;
        self.sender = Some(new_sender(self.capacity));
        self.health_monitor.is_healthy = true;
        self.health_monitor.error_count = 0;
        self.state = ChannelState::Active;
        Ok(())
    }

    /// Sends, and buffers the item when the send is refused (a closed channel buffers too).
    pub fn send_with_backpressure(&mut self, data: T) -> (r: Result<(), AudioError>)
        requires
            old(self).wf(),
        ensures
            final(self).wf(),
            r is Ok,
            old(self).state_spec() == ChannelState::Closed ==> final(self).state_spec()
                == ChannelState::Closed && final(self).log() == old(self).log().push(data)
                && final(self).buffered() == old(self).backing().pushed(data),
    {
        if self.state == ChannelState::Closed {
            self.buffer_item(data);
            Ok(())
        } else {
            self.send(data)
        }
    }
}

/// One `send`: a closed channel refuses and changes nothing; otherwise the item is either
/// delivered (the channel turns `Active` and healthy) or goes to the backing buffer.
pub open spec fn send_step<T>(
    c0: ManagedChannel<T>,
    data: T,
    r: Result<(), AudioError>,
    c1: ManagedChannel<T>,
) -> bool {
    &&& c1.wf()
    &&& c1.capacity_spec() == c0.capacity_spec()
    &&& c1.id() == c0.id()
    &&& c1.drained_count() == c0.drained_count()
    &&& c0.state_spec() == ChannelState::Closed ==> r is Err && c1.state_spec()
        == ChannelState::Closed && c1.backing() == c0.backing() && c1.log() == c0.log()
        && c1.health() == c0.health()
    &&& c0.state_spec() != ChannelState::Closed ==> r is Ok
    &&& c0.state_spec() != ChannelState::Closed ==> {
        ||| (c1.log() == c0.log().push(data) && c1.buffered() == c0.backing().pushed(data)
            && c1.state_spec() == c0.state_spec() && c1.health() == c0.health())
        ||| (c1.log() == c0.log() && c1.backing() == c0.backing() && c1.state_spec()
            == ChannelState::Active && c1.health().is_healthy && c1.health().error_count == 0)
    }
}

/// Items that reach a channel's backing buffer come out of `drain_buffered` in the order
/// they were sent; what the buffer lacks is exactly what was drained before or dropped
/// from the head, and the drops are what `overflow_events` counts.
pub proof fn lemma_buffered_in_send_order<T>(ch: &ManagedChannel<T>)
    requires
        ch.wf(),
    ensures
        ch.buffered() == ch.log().subrange(
            (ch.drained_count() + ch.dropped_count()) as int,
            ch.log().len() as int,
        ),
        ch.drained_count() + ch.dropped_count() + ch.buffered().len() == ch.log().len(),
        ch.backing().metrics_view().total_overflow_events as int == if ch.dropped_count()
            >= u64::MAX as nat {
            u64::MAX as int
        } else {
            ch.dropped_count() as int
        },
{
}

} // verus!
