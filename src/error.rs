//! Error taxonomy, per-component recovery strategies and their resolution.
use vstd::prelude::*;

use crate::clock::now_millis;
use crate::text::{decimal, decimal_string, join2, join3};

verus! {

/// Most entries that an error handler keeps in its history.
pub const MAX_ERROR_HISTORY: usize = 1000;

/// Largest exponent of the retry backoff.
pub const MAX_BACKOFF_EXPONENT: u32 = 10;

/// How many of the latest history entries count as recent.
pub const RECENT_WINDOW: usize = 100;

/// The kinds of channel failure.
#[derive(Clone, Copy, Debug, PartialEq, Eq, Structural)]
pub enum ChannelErrorType {
    Closed,
    Full,
    SendFailed,
    ReceiveFailed,
    Recovery,
}

/// Errors of the audio pipeline.
#[derive(Clone, Debug)]
pub enum AudioError {
    Device { message: String, recoverable: bool },
    Channel { message: String, error_type: ChannelErrorType },
    Buffer { message: String, buffer_type: String },
    VadProcessing { message: String, samples_lost: usize },
    Transcription { message: String, chunk_id: u64 },
    Recovery { message: String, attempts: u32 },
    Configuration { message: String, field: String },
    ResourceExhaustion { message: String, resource_type: String },
    Timeout { message: String, duration_ms: u64 },
    System { message: String, code: Option<i32> },
    Processing { message: String, context: Option<String> },
}

/// How a component's errors are met.
#[derive(Clone, Copy, Debug, PartialEq, Eq, Structural)]
pub enum ErrorRecoveryStrategy {
    /// Retry with exponential backoff, at most `max_attempts` times.
    Retry { max_attempts: u32, base_delay_ms: u64 },
    /// Carry on with reduced functionality.
    Graceful { fallback_enabled: bool },
    Stop,
    Restart,
    Escalate,
}

/// What the caller is advised to do about an error.
#[derive(Clone, Copy, Debug, PartialEq, Eq, Structural)]
pub enum ErrorRecoveryAction {
    Retry { delay_ms: u64, attempt: u32 },
    Backoff { delay_ms: u64, attempt: u32 },
    Reset,
    Ignore,
    Stop,
    Restart,
    Escalate,
    Continue { with_degradation: bool, fallback_enabled: bool },
}

/// The device an error concerns.
#[derive(Clone, Debug)]
pub struct DeviceErrorInfo {
    pub device_name: String,
    pub device_type: String,
    pub sample_rate: u32,
    pub channels: u16,
}

/// Load figures at the time of an error. Percentages are in parts per thousand.
#[derive(Clone, Copy, Debug)]
pub struct SystemErrorInfo {
    pub memory_usage_mb: u64,
    pub cpu_usage_permille: u32,
    pub active_streams: u32,
    pub buffer_utilization_permille: u32,
}

/// The recovery state that an error was met in. The success rate is in parts per thousand.
#[derive(Clone, Copy, Debug)]
pub struct RecoveryInfo {
    pub strategy: ErrorRecoveryStrategy,
    pub attempt_count: u32,
    pub last_attempt_ms: u64,
    pub success_rate_permille: u32,
}

/// Where and when an error happened.
#[derive(Clone, Debug)]
pub struct ErrorContext {
    pub component: String,
    pub operation: String,
    pub timestamp: u64,
    pub device_info: Option<DeviceErrorInfo>,
    pub system_info: SystemErrorInfo,
    pub recovery_info: Option<RecoveryInfo>,
}

/// A context for `component` and `operation`, stamped with the current time.
pub fn create_error_context(
    component: &str,
    operation: &str,
    device_info: Option<DeviceErrorInfo>,
) -> (r: ErrorContext)
    ensures
        r.component@ == component@,
        r.operation@ == operation@,
        r.device_info == device_info,
        r.system_info == (SystemErrorInfo {
            memory_usage_mb: 0,
            cpu_usage_permille: 0,
            active_streams: 0,
            buffer_utilization_permille: 0,
        }),
        r.recovery_info is None,
{
    ErrorContext {
        component: String::from_str(component),
        operation: String::from_str(operation),
        timestamp: now_millis(),
        device_info,
        system_info: SystemErrorInfo {
            memory_usage_mb: 0,
            cpu_usage_permille: 0,
            active_streams: 0,
            buffer_utilization_permille: 0,
        },
        recovery_info: None,
    }
}

impl AudioError {
    /// The message that every variant carries.
    pub open spec fn message_view(&self) -> Seq<char> {
        match self {
            AudioError::Device { message, .. } => message@,
            AudioError::Channel { message, .. } => message@,
            AudioError::Buffer { message, .. } => message@,
            AudioError::VadProcessing { message, .. } => message@,
            AudioError::Transcription { message, .. } => message@,
            AudioError::Recovery { message, .. } => message@,
            AudioError::Configuration { message, .. } => message@,
            AudioError::ResourceExhaustion { message, .. } => message@,
            AudioError::Timeout { message, .. } => message@,
            AudioError::System { message, .. } => message@,
            AudioError::Processing { message, .. } => message@,
        }
    }

    pub fn message(&self) -> (r: &String)
        ensures
            r@ == self.message_view(),
    {
        match self {
            AudioError::Device { message, .. } => message,
            AudioError::Channel { message, .. } => message,
            AudioError::Buffer { message, .. } => message,
            AudioError::VadProcessing { message, .. } => message,
            AudioError::Transcription { message, .. } => message,
            AudioError::Recovery { message, .. } => message,
            AudioError::Configuration { message, .. } => message,
            AudioError::ResourceExhaustion { message, .. } => message,
            AudioError::Timeout { message, .. } => message,
            AudioError::System { message, .. } => message,
            AudioError::Processing { message, .. } => message,
        }
    }

    pub fn device_disconnected(device_name: &str) -> (r: AudioError)
        ensures
            r matches AudioError::Device { message, recoverable } && recoverable && (message@
                == "Device '"@ + device_name@ + "' disconnected"@),
    {
        AudioError::Device {
            message: join3("Device '", device_name, "' disconnected"),
            recoverable: true,
        }
    }

    pub fn channel_closed(channel_id: &str) -> (r: AudioError)
        ensures
            r matches AudioError::Channel { message, error_type } && error_type
                == ChannelErrorType::Closed && (message@ == "Channel '"@ + channel_id@
                + "' closed unexpectedly"@),
    {
        AudioError::Channel {
            message: join3("Channel '", channel_id, "' closed unexpectedly"),
            error_type: ChannelErrorType::Closed,
        }
    }

    pub fn buffer_overflow(buffer_size: usize, attempted_size: usize) -> (r: AudioError)
        ensures
            r matches AudioError::Buffer { message, buffer_type } && (buffer_type@ == "audio"@)
                && (message@ == "Buffer overflow: size "@ + decimal(buffer_size as nat)
                + " exceeded by "@ + decimal(attempted_size as nat)),
    {
        let size = decimal_string(buffer_size as u64);
        let attempted = decimal_string(attempted_size as u64);
        let message = join2("Buffer overflow: size ", size.as_str());
        let message = message.concat(" exceeded by ");
        let message = message.concat(attempted.as_str());
        AudioError::Buffer { message, buffer_type: String::from_str("audio") }
    }

    pub fn vad_processing_failed(samples_lost: usize, reason: &str) -> (r: AudioError)
        ensures
            r matches AudioError::VadProcessing { message, samples_lost: lost } && lost
                == samples_lost && (message@ == "VAD processing failed: "@ + reason@),
    {
        AudioError::VadProcessing {
            message: join2("VAD processing failed: ", reason),
            samples_lost,
        }
    }

    pub fn transcription_failed(samples: usize, reason: &str) -> (r: AudioError)
        ensures
            r matches AudioError::Processing { message, context } && (message@
                == "Transcription failed for "@ + decimal(samples as nat) + " samples: "@
                + reason@) && (context matches Some(c) && c@ == "samples_lost: "@ + decimal(
                samples as nat,
            ) + ", recoverable: true"@),
    {
        let n = decimal_string(samples as u64);
        let message = join3("Transcription failed for ", n.as_str(), " samples: ");
        let message = message.concat(reason);
        let context = join3("samples_lost: ", n.as_str(), ", recoverable: true");
        AudioError::Processing { message, context: Some(context) }
    }

    pub fn chunk_processing_failed(samples: usize, reason: &str) -> (r: AudioError)
        ensures
            r matches AudioError::Processing { message, context } && (message@
                == "Chunk processing failed for "@ + decimal(samples as nat) + " samples: "@
                + reason@) && (context matches Some(c) && c@ == "samples_lost: "@ + decimal(
                samples as nat,
            ) + ", recoverable: true"@),
    {
        let n = decimal_string(samples as u64);
        let message = join3("Chunk processing failed for ", n.as_str(), " samples: ");
        let message = message.concat(reason);
        let context = join3("samples_lost: ", n.as_str(), ", recoverable: true");
        AudioError::Processing { message, context: Some(context) }
    }

    pub fn processing_timeout(samples: usize, timeout_ms: u64) -> (r: AudioError)
        ensures
            r matches AudioError::Timeout { message, duration_ms } && duration_ms == timeout_ms
                && (message@ == "Processing timeout after "@ + decimal(timeout_ms as nat)
                + "ms for "@ + decimal(samples as nat) + " samples"@),
    {
        let n = decimal_string(samples as u64);
        let t = decimal_string(timeout_ms);
        let message = join3("Processing timeout after ", t.as_str(), "ms for ");
        let message = message.concat(n.as_str());
        let message = message.concat(" samples");
        AudioError::Timeout { message, duration_ms: timeout_ms }
    }

    pub fn channel_send_failed(message: String) -> (r: AudioError)
        ensures
            r == (AudioError::Channel { message, error_type: ChannelErrorType::SendFailed }),
    {
        AudioError::Channel { message, error_type: ChannelErrorType::SendFailed }
    }
}

/// `2^n`.
pub open spec fn pow2(n: nat) -> nat
    decreases n,
{
    if n == 0 {
        1
    } else {
        2 * pow2((n - 1) as nat)
    }
}

/// `x`, capped at the largest `u64`.
pub open spec fn cap_u64(x: int) -> u64 {
    if x > u64::MAX as int {
        u64::MAX
    } else {
        x as u64
    }
}

/// The backoff delay for the `count`-th error: `base * 2^min(count, 10)`, saturating.
pub open spec fn backoff_delay(base: u64, count: u32) -> u64 {
    let e = if count < MAX_BACKOFF_EXPONENT {
        count
    } else {
        MAX_BACKOFF_EXPONENT
    };
    cap_u64(base as int * pow2(e as nat) as int)
}

/// The action that `strategy` gives for a component that has now seen `count` errors.
pub open spec fn resolve(strategy: ErrorRecoveryStrategy, count: u32) -> ErrorRecoveryAction {
    match strategy {
        ErrorRecoveryStrategy::Retry { max_attempts, base_delay_ms } => {
            if count <= max_attempts {
                ErrorRecoveryAction::Retry {
                    delay_ms: backoff_delay(base_delay_ms, count),
                    attempt: count,
                }
            } else {
                ErrorRecoveryAction::Escalate
            }
        },
        ErrorRecoveryStrategy::Graceful { fallback_enabled } => ErrorRecoveryAction::Continue {
            with_degradation: true,
            fallback_enabled,
        },
        ErrorRecoveryStrategy::Stop => ErrorRecoveryAction::Stop,
        ErrorRecoveryStrategy::Restart => ErrorRecoveryAction::Restart,
        ErrorRecoveryStrategy::Escalate => ErrorRecoveryAction::Escalate,
    }
}

/// `base * 2^min(count, 10)`, saturating at the largest `u64`.
pub fn backoff_delay_ms(base: u64, count: u32) -> (r: u64)
    ensures
        r == backoff_delay(base, count),
{
    let e: u32 = if count < MAX_BACKOFF_EXPONENT {
        count
    } else {
        MAX_BACKOFF_EXPONENT
    };
    let mut p: u64 = 1;
    let mut i: u32 = 0;
    while i < e
        invariant
            i <= e <= MAX_BACKOFF_EXPONENT,
            p as nat == pow2(i as nat),
            p <= 1024,
        decreases e - i,
    {
        proof {
            assert(pow2((i + 1) as nat) == 2 * pow2(i as nat));
            assert(p <= 512) by {
                lemma_pow2_le_10(i as nat);
            }
        }
        p = p * 2;
        i = i + 1;
    }
    assert((base as int) * (p as int) <= (u64::MAX as int) * 1024) by (nonlinear_arith)
        requires
            p <= 1024,
    ;
    let prod = (base as u128) * (p as u128);
    if prod > u64::MAX as u128 {
        u64::MAX
    } else {
        prod as u64
    }
}

proof fn lemma_pow2_le_10(i: nat)
    requires
        i < 10,
    ensures
        pow2(i) <= 512,
    decreases i,
{
    reveal_with_fuel(pow2, 11);
    if i > 0 {
        lemma_pow2_le_10((i - 1) as nat);
    }
}

/// The action for `strategy` when the component has now seen `count` errors.
pub fn execute_recovery(strategy: ErrorRecoveryStrategy, count: u32) -> (r: ErrorRecoveryAction)
    ensures
        r == resolve(strategy, count),
{
    match strategy {
        ErrorRecoveryStrategy::Retry { max_attempts, base_delay_ms } => {
            if count <= max_attempts {
                ErrorRecoveryAction::Retry {
                    delay_ms: backoff_delay_ms(base_delay_ms, count),
                    attempt: count,
                }
            } else {
                ErrorRecoveryAction::Escalate
            }
        },
        ErrorRecoveryStrategy::Graceful { fallback_enabled } => ErrorRecoveryAction::Continue {
            with_degradation: true,
            fallback_enabled,
        },
        ErrorRecoveryStrategy::Stop => ErrorRecoveryAction::Stop,
        ErrorRecoveryStrategy::Restart => ErrorRecoveryAction::Restart,
        ErrorRecoveryStrategy::Escalate => ErrorRecoveryAction::Escalate,
    }
}

/// A table from component names to values, one entry per name.
pub struct NamedTable<V> {
    entries: Vec<(String, V)>,
}

/// Names are unique in `s`.
pub open spec fn keys_unique<V>(s: Seq<(String, V)>) -> bool {
    forall|i: int, j: int|
        0 <= i < s.len() && 0 <= j < s.len() && #[trigger] s[i].0@ == #[trigger] s[j].0@ ==> i
            == j
}

/// `name` has an entry in `s`.
pub open spec fn has_key<V>(s: Seq<(String, V)>, name: Seq<char>) -> bool {
    exists|i: int| 0 <= i < s.len() && #[trigger] s[i].0@ == name
}

/// The value that `s` gives `name`, if any.
pub open spec fn lookup<V>(s: Seq<(String, V)>, name: Seq<char>) -> Option<V> {
    if has_key(s, name) {
        let i = choose|i: int| 0 <= i < s.len() && #[trigger] s[i].0@ == name;
        Some(s[i].1)
    } else {
        None
    }
}

impl<V: Copy> NamedTable<V> {
    pub closed spec fn view_entries(&self) -> Seq<(String, V)> {
        self.entries@
    }

    /// The table as a partial map from names to values.
    pub open spec fn get_spec(&self, name: Seq<char>) -> Option<V> {
        lookup(self.view_entries(), name)
    }

    pub open spec fn wf(&self) -> bool {
        keys_unique(self.view_entries())
    }

    pub fn new() -> (r: Self)
        ensures
            r.wf(),
            forall|n: Seq<char>| r.get_spec(n) is None,
            r.view_entries().len() == 0,
    {
        NamedTable { entries: Vec::new() }
    }

    fn position(&self, name: &String) -> (r: Option<usize>)
        requires
            self.wf(),
        ensures
            r matches Some(i) ==> i < self.entries@.len() && self.entries@[i as int].0@ == name@,
            r is None ==> !has_key(self.entries@, name@),
    {
        let mut i: usize = 0;
        while i < self.entries.len()
            invariant
                i <= self.entries@.len(),
                forall|j: int| 0 <= j < i ==> #[trigger] self.entries@[j].0@ != name@,
            decreases self.entries@.len() - i,
        {
            if self.entries[i].0 == *name {
                return Some(i);
            }
            i = i + 1;
        }
        None
    }

    /// The value for `name`, if any.
    pub fn get(&self, name: &String) -> (r: Option<V>)
        requires
            self.wf(),
        ensures
            r == self.get_spec(name@),
    {
        match self.position(name) {
            Some(i) => {
                let v = self.entries[i].1;
                proof {
                    let s = self.entries@;
                    assert(has_key(s, name@));
                    let k = choose|k: int| 0 <= k < s.len() && #[trigger] s[k].0@ == name@;
                    assert(s[k].0@ == s[i as int].0@);
                }
                Some(v)
            },
            None => None,
        }
    }

    /// Gives `name` the value `value`, adding an entry if it has none.
    pub fn set(&mut self, name: String, value: V)
        requires
            old(self).wf(),
        ensures
            final(self).wf(),
            final(self).get_spec(name@) == Some(value),
            forall|n: Seq<char>| n != name@ ==> final(self).get_spec(n) == old(self).get_spec(n),
            has_key(old(self).view_entries(), name@) ==> final(self).view_entries().len() == old(self).view_entries().len(),
            !has_key(old(self).view_entries(), name@) ==> final(self).view_entries().len() == old(self).view_entries().len() + 1,
            !has_key(old(self).view_entries(), name@) ==> final(self).view_entries() == old(self).view_entries().push((name, value)),
            has_key(old(self).view_entries(), name@) ==> exists|i: int|
                0 <= i < old(self).view_entries().len() && #[trigger] old(self).view_entries()[i].0@ == name@
                    && final(self).view_entries() == old(self).view_entries().update(i, (name, value)),
    {
        let ghost name_v = name@;
        match self.position(&name) {
            Some(i) => {
                let ghost s0 = self.entries@;
                self.entries.set(i, (name, value));
                proof {
                    let s = self.entries@;
                    assert(forall|j: int| 0 <= j < s.len() ==> #[trigger] s[j].0@ == s0[j].0@);
                    assert(keys_unique(s));
                    assert(has_key(s, name_v)) by {
                        assert(s[i as int].0@ == name_v);
                    }
                    let k = choose|k: int| 0 <= k < s.len() && #[trigger] s[k].0@ == name_v;
                    assert(s[k].0@ == s[i as int].0@);
                    assert forall|n: Seq<char>| n != name_v implies lookup(s, n) == lookup(
                        s0,
                        n,
                    ) by {
                        if has_key(s0, n) {
                            let a = choose|a: int| 0 <= a < s0.len() && #[trigger] s0[a].0@ == n;
                            assert(s[a].0@ == n);
                            assert(has_key(s, n));
                            let b = choose|b: int| 0 <= b < s.len() && #[trigger] s[b].0@ == n;
                            assert(s[b].0@ == s[a].0@);
                        } else {
                            if has_key(s, n) {
                                let b = choose|b: int| 0 <= b < s.len() && #[trigger] s[b].0@ == n;
                                assert(s0[b].0@ == n);
                            }
                        }
                    }
                }
            },
            None => {
                let ghost s0 = self.entries@;
                self.entries.push((name, value));
                proof {
                    let s = self.entries@;
                    assert(forall|j: int| 0 <= j < s0.len() ==> #[trigger] s[j] == s0[j]);
                    assert(keys_unique(s)) by {
                        assert forall|a: int, b: int|
                            0 <= a < s.len() && 0 <= b < s.len() && #[trigger] s[a].0@
                                == #[trigger] s[b].0@ implies a == b by {
                            if a < s0.len() && b == s0.len() {
                                assert(s0[a].0@ == name_v);
                            }
                            if b < s0.len() && a == s0.len() {
                                assert(s0[b].0@ == name_v);
                            }
                        }
                    }
                    let last = s0.len() as int;
                    assert(s[last].0@ == name_v);
                    assert(has_key(s, name_v));
                    let k = choose|k: int| 0 <= k < s.len() && #[trigger] s[k].0@ == name_v;
                    assert(s[k].0@ == s[last].0@);
                    assert forall|n: Seq<char>| n != name_v implies lookup(s, n) == lookup(
                        s0,
                        n,
                    ) by {
                        if has_key(s0, n) {
                            let a = choose|a: int| 0 <= a < s0.len() && #[trigger] s0[a].0@ == n;
                            assert(s[a].0@ == n);
                            let b = choose|b: int| 0 <= b < s.len() && #[trigger] s[b].0@ == n;
                            assert(s[b].0@ == s[a].0@);
                        } else {
                            if has_key(s, n) {
                                let b = choose|b: int| 0 <= b < s.len() && #[trigger] s[b].0@ == n;
                                if b < last {
                                    assert(s0[b].0@ == n);
                                }
                            }
                        }
                    }
                }
            },
        }
    }

    /// The entries, in insertion order.
    pub fn entries(&self) -> (r: &Vec<(String, V)>)
        ensures
            r@ == self.view_entries(),
    {
        &self.entries
    }
}

/// The strategy that components without one of their own get.
pub open spec fn fallback_strategy() -> ErrorRecoveryStrategy {
    ErrorRecoveryStrategy::Graceful { fallback_enabled: false }
}

/// Saturating sum of the counts in `s`.
pub open spec fn sum_counts(s: Seq<(String, u32)>) -> int
    decreases s.len(),
{
    if s.len() == 0 {
        0
    } else {
        sum_counts(s.drop_last()) + s.last().1 as int
    }
}

/// Error statistics. The per-component list holds one entry per component.
#[derive(Clone, Debug)]
pub struct ErrorStatistics {
    pub total_errors: u32,
    pub recent_errors: u32,
    pub component_errors: Vec<(String, u32)>,
    pub error_history_size: usize,
}

/// Counts errors per component, keeps a bounded history and resolves recovery actions.
pub struct ErrorHandler {
    error_counts: NamedTable<u32>,
    recovery_strategies: NamedTable<ErrorRecoveryStrategy>,
    max_error_history: usize,
    error_history: Vec<(AudioError, ErrorContext)>,
}

/// The history after recording `entry`, trimmed to the newest `max` entries.
pub open spec fn trimmed_history(
    h: Seq<(AudioError, ErrorContext)>,
    entry: (AudioError, ErrorContext),
    max: int,
) -> Seq<(AudioError, ErrorContext)> {
    let n = h.push(entry);
    if n.len() > max {
        n.subrange(n.len() - max, n.len() as int)
    } else {
        n
    }
}

impl ErrorHandler {
    pub closed spec fn counts(&self) -> NamedTable<u32> {
        self.error_counts
    }

    pub closed spec fn strategies(&self) -> NamedTable<ErrorRecoveryStrategy> {
        self.recovery_strategies
    }

    pub closed spec fn history(&self) -> Seq<(AudioError, ErrorContext)> {
        self.error_history@
    }

    pub closed spec fn wf(&self) -> bool {
        &&& self.error_counts.wf()
        &&& self.recovery_strategies.wf()
        &&& self.max_error_history == MAX_ERROR_HISTORY
        &&& self.error_history@.len() <= MAX_ERROR_HISTORY
    }

    /// Errors seen so far by `component`.
    pub open spec fn count_spec(&self, component: Seq<char>) -> u32 {
        match self.counts().get_spec(component) {
            Some(c) => c,
            None => 0,
        }
    }

    /// The strategy that applies to `component`.
    pub open spec fn strategy_spec(&self, component: Seq<char>) -> ErrorRecoveryStrategy {
        match self.strategies().get_spec(component) {
            Some(s) => s,
            None => fallback_strategy(),
        }
    }

    /// A handler with the default strategies: device Retry(3, 1000 ms), channel
    /// Retry(5, 500 ms), buffer and vad Graceful with fallback, transcription Retry(2, 2000 ms).
    pub fn new() -> (r: Self)
        ensures
            r.wf(),
            r.history().len() == 0,
            forall|c: Seq<char>| r.count_spec(c) == 0,
            r.strategy_spec("device"@) == (ErrorRecoveryStrategy::Retry {
                max_attempts: 3,
                base_delay_ms: 1000,
            }),
            r.strategy_spec("channel"@) == (ErrorRecoveryStrategy::Retry {
                max_attempts: 5,
                base_delay_ms: 500,
            }),
            r.strategy_spec("buffer"@) == (ErrorRecoveryStrategy::Graceful {
                fallback_enabled: true,
            }),
            r.strategy_spec("vad"@) == (ErrorRecoveryStrategy::Graceful { fallback_enabled: true }),
            r.strategy_spec("transcription"@) == (ErrorRecoveryStrategy::Retry {
                max_attempts: 2,
                base_delay_ms: 2000,
            }),
            forall|c: Seq<char>|
                c != "device"@ && c != "channel"@ && c != "buffer"@ && c != "vad"@ && c
                    != "transcription"@ ==> #[trigger] r.strategy_spec(c) == fallback_strategy(),
    {
        proof {
            reveal_strlit("device");
            reveal_strlit("channel");
            reveal_strlit("buffer");
            reveal_strlit("vad");
            reveal_strlit("transcription");
            assert("device"@[0] == 'd' && "channel"@[0] == 'c' && "buffer"@[0] == 'b'
                && "vad"@[0] == 'v' && "transcription"@[0] == 't');
            assert("device"@ != "channel"@ && "device"@ != "buffer"@ && "device"@ != "vad"@
                && "device"@ != "transcription"@ && "channel"@ != "buffer"@ && "channel"@
                != "vad"@ && "channel"@ != "transcription"@ && "buffer"@ != "vad"@ && "buffer"@
                != "transcription"@ && "vad"@ != "transcription"@);
        }
        let mut strategies = NamedTable::new();
        strategies.set(
            String::from_str("device"),
            ErrorRecoveryStrategy::Retry { max_attempts: 3, base_delay_ms: 1000 },
        );
        strategies.set(
            String::from_str("channel"),
            ErrorRecoveryStrategy::Retry { max_attempts: 5, base_delay_ms: 500 },
        );
        strategies.set(
            String::from_str("buffer"),
            ErrorRecoveryStrategy::Graceful { fallback_enabled: true },
        );
        strategies.set(
            String::from_str("vad"),
            ErrorRecoveryStrategy::Graceful { fallback_enabled: true },
        );
        strategies.set(
            String::from_str("transcription"),
            ErrorRecoveryStrategy::Retry { max_attempts: 2, base_delay_ms: 2000 },
        );
        ErrorHandler {
            error_counts: NamedTable::new(),
            recovery_strategies: strategies,
            max_error_history: MAX_ERROR_HISTORY,
            error_history: Vec::new(),
        }
    }

    /// Records `error`, counts it against the context's component and returns the action
    /// that the component's strategy gives for the new count.
    pub fn handle_error(&mut self, error: AudioError, context: ErrorContext) -> (r:
        ErrorRecoveryAction)
        requires
            old(self).wf(),
        ensures
            final(self).wf(),
            final(self).count_spec(context.component@) == sat_inc32(
                old(self).count_spec(context.component@),
            ),
            forall|c: Seq<char>|
                c != context.component@ ==> #[trigger] final(self).count_spec(c) == old(self).count_spec(c),
            forall|c: Seq<char>| #[trigger]
                final(self).strategy_spec(c) == old(self).strategy_spec(c),
            final(self).history() == trimmed_history(
                old(self).history(),
                (error, context),
                MAX_ERROR_HISTORY as int,
            ),
            r == resolve(
                old(self).strategy_spec(context.component@),
                sat_inc32(old(self).count_spec(context.component@)),
            ),
            final(self).counts().view_entries().len() == old(self).counts().view_entries().len()
                + if has_key(old(self).counts().view_entries(), context.component@) {
                0int
            } else {
                1int
            },
            sum_counts(final(self).counts().view_entries()) == sum_counts(
                old(self).counts().view_entries(),
            ) + sat_inc32(old(self).count_spec(context.component@)) - old(self).count_spec(
                context.component@,
            ),
    {
        let component = context.component.clone();
        self.store_error_history(error, context);
        self.increment_error_count(component.clone());
        let strategy = self.get_recovery_strategy(&component);
        let count = self.get_error_count(&component);
        execute_recovery(strategy, count)
    }

    fn store_error_history(&mut self, error: AudioError, context: ErrorContext)
        requires
            old(self).wf(),
        ensures
            final(self).wf(),
            final(self).error_counts == old(self).error_counts,
            final(self).recovery_strategies == old(self).recovery_strategies,
            final(self).error_history@ == trimmed_history(
                old(self).error_history@,
                (error, context),
                MAX_ERROR_HISTORY as int,
            ),
    {
        let ghost entry = (error, context);
        let ghost h0 = self.error_history@;
        self.error_history.push((error, context));
        if self.error_history.len() > self.max_error_history {
            self.error_history.remove(0);
            proof {
                let n = h0.push(entry);
                assert(n.len() == MAX_ERROR_HISTORY + 1);
                assert(self.error_history@ =~= n.subrange(1, n.len() as int));
            }
        }
    }

    fn increment_error_count(&mut self, component: String)
        requires
            old(self).wf(),
        ensures
            final(self).wf(),
            final(self).error_history == old(self).error_history,
            final(self).recovery_strategies == old(self).recovery_strategies,
            final(self).count_spec(component@) == sat_inc32(old(self).count_spec(component@)),
            forall|c: Seq<char>|
                c != component@ ==> #[trigger] final(self).count_spec(c) == old(self).count_spec(
                    c,
                ),
            final(self).counts().view_entries().len() == old(self).counts().view_entries().len()
                + if has_key(old(self).counts().view_entries(), component@) {
                0int
            } else {
                1int
            },
            sum_counts(final(self).counts().view_entries()) == sum_counts(
                old(self).counts().view_entries(),
            ) + sat_inc32(old(self).count_spec(component@)) - old(self).count_spec(component@),
    {
        let ghost s0 = self.error_counts.view_entries();
        let ghost name = component@;
        let current = match self.error_counts.get(&component) {
            Some(c) => c,
            None => 0,
        };
        self.error_counts.set(component, current.saturating_add(1));
        proof {
            let s1 = self.error_counts.view_entries();
            if has_key(s0, name) {
                let i = choose|i: int|
                    0 <= i < s0.len() && #[trigger] s0[i].0@ == name && s1 == s0.update(i, s1[i]);
                lemma_lookup_entry(s0, i);
                lemma_sum_counts_update(s0, i, s1[i]);
            } else {
                assert(s1.drop_last() =~= s0);
            }
        }
    }

    /// Errors counted against `component` so far.
    pub fn get_error_count(&self, component: &String) -> (r: u32)
        requires
            self.wf(),
        ensures
            r == self.count_spec(component@),
    {
        match self.error_counts.get(component) {
            Some(c) => c,
            None => 0,
        }
    }

    /// The strategy for `component`, or `Graceful` without fallback when it has none.
    pub fn get_recovery_strategy(&self, component: &String) -> (r: ErrorRecoveryStrategy)
        requires
            self.wf(),
        ensures
            r == self.strategy_spec(component@),
    {
        match self.recovery_strategies.get(component) {
            Some(s) => s,
            None => ErrorRecoveryStrategy::Graceful { fallback_enabled: false },
        }
    }

    pub fn set_recovery_strategy(&mut self, component: String, strategy: ErrorRecoveryStrategy)
        requires
            old(self).wf(),
        ensures
            final(self).wf(),
            final(self).strategy_spec(component@) == strategy,
            forall|c: Seq<char>|
                c != component@ ==> #[trigger] final(self).strategy_spec(c) == old(self).strategy_spec(c),
            forall|c: Seq<char>| #[trigger] final(self).count_spec(c) == old(self).count_spec(c),
            final(self).history() == old(self).history(),
    {
        self.recovery_strategies.set(component, strategy);
    }

    /// Sets the count of `component` back to zero.
    pub fn reset_error_count(&mut self, component: &String)
        requires
            old(self).wf(),
        ensures
            final(self).wf(),
            final(self).count_spec(component@) == 0,
            forall|c: Seq<char>|
                c != component@ ==> #[trigger] final(self).count_spec(c) == old(self).count_spec(
                    c,
                ),
            forall|c: Seq<char>| #[trigger]
                final(self).strategy_spec(c) == old(self).strategy_spec(c),
            final(self).history() == old(self).history(),
    {
        if self.error_counts.get(component).is_some() {
            self.error_counts.set(component.clone(), 0);
        }
    }

    /// Whether `component` has seen at least `failure_threshold` errors.
    pub fn is_component_failed(&self, component: &String, failure_threshold: u32) -> (r: bool)
        requires
            self.wf(),
        ensures
            r == (self.count_spec(component@) >= failure_threshold),
    {
        self.get_error_count(component) >= failure_threshold
    }

    /// Totals over all components and the history.
    pub fn get_error_statistics(&self) -> (r: ErrorStatistics)
        requires
            self.wf(),
        ensures
            r.total_errors as int == (if sum_counts(self.counts().view_entries())
                > u32::MAX as int {
                u32::MAX as int
            } else {
                sum_counts(self.counts().view_entries())
            }),
            r.recent_errors as int == (if self.history().len() < RECENT_WINDOW {
                self.history().len() as int
            } else {
                RECENT_WINDOW as int
            }),
            r.error_history_size == self.history().len(),
            r.component_errors@.len() == self.counts().view_entries().len(),
            forall|i: int|
                0 <= i < r.component_errors@.len() ==> #[trigger] r.component_errors@[i].0@
                    == self.counts().view_entries()[i].0@ && r.component_errors@[i].1
                    == self.counts().view_entries()[i].1,
            forall|i: int|
                0 <= i < r.component_errors@.len() ==> #[trigger] r.component_errors@[i].1
                    == self.count_spec(r.component_errors@[i].0@),
    {
        let entries = self.error_counts.entries();
        let mut component_errors: Vec<(String, u32)> = Vec::new();
        let mut total: u64 = 0;
        let mut i: usize = 0;
        while i < entries.len()
            invariant
                i <= entries@.len(),
                entries@ == self.counts().view_entries(),
                component_errors@.len() == i,
                total as int == (if sum_counts(entries@.subrange(0, i as int)) > u32::MAX as int {
                    u32::MAX as int
                } else {
                    sum_counts(entries@.subrange(0, i as int))
                }),
                forall|j: int|
                    0 <= j < i ==> #[trigger] component_errors@[j].0@ == entries@[j].0@
                        && component_errors@[j].1 == entries@[j].1,
            decreases entries@.len() - i,
        {
            let name = entries[i].0.clone();
            let count = entries[i].1;
            component_errors.push((name, count));
            proof {
                let s = entries@.subrange(0, i as int + 1);
                assert(s.drop_last() =~= entries@.subrange(0, i as int));
                assert(sum_counts(entries@.subrange(0, i as int)) >= 0) by {
                    lemma_sum_counts_nonneg(entries@.subrange(0, i as int));
                }
            }
            let next = total + count as u64;
            total = if next > u32::MAX as u64 {
                u32::MAX as u64
            } else {
                next
            };
            i = i + 1;
        }
        proof {
            assert(entries@.subrange(0, entries@.len() as int) =~= entries@);
            assert forall|i: int| 0 <= i < component_errors@.len() implies #[trigger] component_errors@[i].1
                == self.count_spec(component_errors@[i].0@) by {
                lemma_lookup_entry(entries@, i);
            }
        }
        let n = self.error_history.len();
        let recent = if n < RECENT_WINDOW {
            n
        } else {
            RECENT_WINDOW
        };
        ErrorStatistics {
            total_errors: total as u32,
            recent_errors: recent as u32,
            component_errors,
            error_history_size: n,
        }
    }

    /// Up to `limit` of the newest history entries, newest first.
    pub fn get_recent_errors(&self, limit: usize) -> (r: Vec<(AudioError, ErrorContext)>)
        requires
            self.wf(),
        ensures
            r@.len() == (if limit < self.history().len() {
                limit as int
            } else {
                self.history().len() as int
            }),
    {
        let mut out: Vec<(AudioError, ErrorContext)> = Vec::new();
        let n = self.error_history.len();
        let mut k: usize = 0;
        while k < limit && k < n
            invariant
                n == self.error_history@.len(),
                out@.len() == k,
                k <= n,
                k <= limit,
            decreases n - k,
        {
            let entry = &self.error_history[n - 1 - k];
            out.push((entry.0.clone(), entry.1.clone()));
            k = k + 1;
        }
        out
    }
}

/// Replacing one count changes the sum by the difference.
proof fn lemma_sum_counts_update(s: Seq<(String, u32)>, i: int, e: (String, u32))
    requires
        0 <= i < s.len(),
    ensures
        sum_counts(s.update(i, e)) == sum_counts(s) - s[i].1 + e.1,
    decreases s.len(),
{
    if i < s.len() - 1 {
        assert(s.update(i, e).drop_last() =~= s.drop_last().update(i, e));
        lemma_sum_counts_update(s.drop_last(), i, e);
    } else {
        assert(s.update(i, e).drop_last() =~= s.drop_last());
    }
}

/// In a table with unique names, each entry's count is the count its name looks up.
proof fn lemma_lookup_entry(s: Seq<(String, u32)>, i: int)
    requires
        keys_unique(s),
        0 <= i < s.len(),
    ensures
        lookup(s, s[i].0@) == Some(s[i].1),
{
    assert(has_key(s, s[i].0@));
    let k = choose|k: int| 0 <= k < s.len() && #[trigger] s[k].0@ == s[i].0@;
    assert(s[k].0@ == s[i].0@);
}

proof fn lemma_sum_counts_nonneg(s: Seq<(String, u32)>)
    ensures
        sum_counts(s) >= 0,
    decreases s.len(),
{
    if s.len() > 0 {
        lemma_sum_counts_nonneg(s.drop_last());
    }
}

/// `x + 1`, saturating at the largest `u32`.
pub open spec fn sat_inc32(x: u32) -> u32 {
    if x == u32::MAX {
        x
    } else {
        (x + 1) as u32
    }
}

} // verus!
