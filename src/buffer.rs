//! Bounded FIFO with a selectable overflow policy and load-driven resizing.
use vstd::prelude::*;

use crate::clock::now_millis;

verus! {

/// Initial capacity that a buffer aims for before its bounds are applied.
pub const DEFAULT_INITIAL_CAPACITY: usize = 1000;

/// Parts per million: the fixed-point scale of utilization figures.
pub const PPM: u64 = 1_000_000;

/// What `push` does when the buffer is at capacity.
#[derive(Clone, Copy, Debug, PartialEq, Eq, Structural)]
pub enum OverflowStrategy {
    /// Remove the head, then append.
    DropOldest,
    /// Refuse the item with `BufferError::BufferFull`.
    Backpressure,
    /// Double the capacity up to the maximum; at the maximum, drop the head.
    Expand,
}

/// Failures of buffer operations.
#[derive(Clone, Debug)]
pub enum BufferError {
    BufferFull,
    CapacityTooSmall,
    OperationFailed(String),
}

/// Counters kept by a buffer. Utilization figures are in parts per million.
#[derive(Clone, Copy, Debug)]
pub struct BufferMetrics {
    pub current_size: usize,
    pub max_size_reached: usize,
    pub total_writes: u64,
    pub total_overflow_events: u64,
    pub average_utilization: u64,
    pub last_resize_time: Option<u64>,
    pub resize_count: u64,
}

/// The counters of a buffer that has seen no operation.
pub open spec fn fresh_metrics() -> BufferMetrics {
    BufferMetrics {
        current_size: 0,
        max_size_reached: 0,
        total_writes: 0,
        total_overflow_events: 0,
        average_utilization: 0,
        last_resize_time: None,
        resize_count: 0,
    }
}

impl BufferMetrics {
    pub fn new() -> (r: BufferMetrics)
        ensures
            r == fresh_metrics(),
    {
        BufferMetrics {
            current_size: 0,
            max_size_reached: 0,
            total_writes: 0,
            total_overflow_events: 0,
            average_utilization: 0,
            last_resize_time: None,
            resize_count: 0,
        }
    }
}

/// Counts of writes and reads, from which the load ratio `writes / (writes + reads)` is taken.
#[derive(Clone, Copy, Debug)]
pub struct LoadTracker {
    pub write_count: u64,
    pub read_count: u64,
}

/// The load ratio exceeds 0.85.
pub open spec fn load_is_high(writes: u64, reads: u64) -> bool {
    100 * (writes as int) > 85 * (writes as int + reads as int)
}

/// The load ratio is below 0.25 (an idle tracker counts as load 0).
pub open spec fn load_is_low(writes: u64, reads: u64) -> bool {
    100 * (writes as int) < 25 * (writes as int + reads as int) || (writes == 0 && reads == 0)
}

impl LoadTracker {
    pub fn new() -> (r: LoadTracker)
        ensures
            r.write_count == 0 && r.read_count == 0,
    {
        LoadTracker { write_count: 0, read_count: 0 }
    }

    pub fn record_write(&mut self)
        ensures
            final(self).write_count == sat_inc(old(self).write_count),
            final(self).read_count == old(self).read_count,
    {
        self.write_count = self.write_count.saturating_add(1);
    }

    pub fn record_read(&mut self)
        ensures
            final(self).read_count == sat_inc(old(self).read_count),
            final(self).write_count == old(self).write_count,
    {
        self.read_count = self.read_count.saturating_add(1);
    }

    /// Whether the load ratio is above 0.85.
    pub fn is_high(&self) -> (r: bool)
        ensures
            r == load_is_high(self.write_count, self.read_count),
    {
        let w = self.write_count as u128;
        let t = w + self.read_count as u128;
        100 * w > 85 * t
    }

    /// Whether the load ratio is below 0.25.
    pub fn is_low(&self) -> (r: bool)
        ensures
            r == load_is_low(self.write_count, self.read_count),
    {
        let w = self.write_count as u128;
        let t = w + self.read_count as u128;
        100 * w < 25 * t || t == 0
    }

    /// The load ratio in parts per thousand (0 for an idle tracker).
    pub fn current_load(&self) -> (r: u64)
        ensures
            self.write_count as int + self.read_count as int == 0 ==> r == 0,
            self.write_count as int + self.read_count as int > 0 ==> r as int == (1000
                * self.write_count as int) / (self.write_count as int + self.read_count as int),
    {
        let w = self.write_count as u128;
        let t = w + self.read_count as u128;
        if t == 0 {
            0
        } else {
            assert((1000 * (w as int)) / (t as int) <= 1000) by (nonlinear_arith)
                requires
                    w <= t,
                    t > 0,
            ;
            (1000 * w / t) as u64
        }
    }
}

/// `x + 1`, saturating at the largest `u64`.
pub open spec fn sat_inc(x: u64) -> u64 {
    if x == u64::MAX {
        x
    } else {
        (x + 1) as u64
    }
}

/// `cap` scaled by 1.5 and capped at `max`.
pub open spec fn scaled_up(cap: usize, max: usize) -> usize {
    if (cap as int) * 3 / 2 < max as int {
        ((cap as int) * 3 / 2) as usize
    } else {
        max
    }
}

/// `cap` scaled by 0.75 and floored at `min`.
pub open spec fn scaled_down(cap: usize, min: usize) -> usize {
    if (cap as int) * 3 / 4 > min as int {
        ((cap as int) * 3 / 4) as usize
    } else {
        min
    }
}

/// `cap` doubled and capped at `max`.
pub open spec fn doubled(cap: usize, max: usize) -> usize {
    if (cap as int) * 2 < max as int {
        ((cap as int) * 2) as usize
    } else {
        max
    }
}

/// Utilization of `len` items in `cap` slots, in parts per million.
pub open spec fn utilization_of(len: int, cap: int) -> int {
    len * (PPM as int) / cap
}

/// One step of the exponential moving average with weight 0.1 on the new value.
pub open spec fn ema_step(avg: int, sample: int) -> int {
    (9 * avg + sample) / 10
}

/// The smallest capacity a buffer takes: `min_size`, but never below one item.
pub open spec fn size_floor(min: usize) -> usize {
    if min == 0 {
        1
    } else {
        min
    }
}

/// A bounded FIFO of `T`. Its capacity moves between `min_size` and `max_size`.
pub struct AdaptiveBuffer<T> {
    min_size: usize,
    max_size: usize,
    current_capacity: usize,
    data: Vec<T>,
    overflow_strategy: OverflowStrategy,
    metrics: BufferMetrics,
    load_tracker: LoadTracker,
    auto_resize: bool,
}

impl<T> AdaptiveBuffer<T> {
    /// The items, head first.
    pub closed spec fn contents(&self) -> Seq<T> {
        self.data@
    }

    pub closed spec fn capacity(&self) -> usize {
        self.current_capacity
    }

    pub closed spec fn min_size(&self) -> usize {
        self.min_size
    }

    pub closed spec fn max_size(&self) -> usize {
        self.max_size
    }

    pub closed spec fn strategy(&self) -> OverflowStrategy {
        self.overflow_strategy
    }

    pub closed spec fn resizes(&self) -> bool {
        self.auto_resize
    }

    pub closed spec fn writes(&self) -> u64 {
        self.load_tracker.write_count
    }

    pub closed spec fn reads(&self) -> u64 {
        self.load_tracker.read_count
    }

    pub closed spec fn metrics_view(&self) -> BufferMetrics {
        self.metrics
    }

    /// The buffer's invariant: `len <= capacity` and `min_size <= capacity <= max_size`.
    pub closed spec fn wf(&self) -> bool {
        &&& self.min_size <= self.current_capacity <= self.max_size
        &&& 1 <= self.current_capacity
        &&& self.data@.len() <= self.current_capacity
        &&& self.metrics.average_utilization <= PPM
    }

    /// A push at this state removes the head before appending.
    pub open spec fn push_drops_head(&self) -> bool {
        &&& self.contents().len() >= self.capacity()
        &&& (self.strategy() == OverflowStrategy::DropOldest || (self.strategy()
            == OverflowStrategy::Expand && self.capacity() >= self.max_size()))
    }

    /// A push at this state grows the capacity before appending.
    pub open spec fn push_expands(&self) -> bool {
        &&& self.contents().len() >= self.capacity()
        &&& self.strategy() == OverflowStrategy::Expand
        &&& self.capacity() < self.max_size()
    }

    /// A push at this state is refused.
    pub open spec fn push_refused(&self) -> bool {
        self.contents().len() >= self.capacity() && self.strategy()
            == OverflowStrategy::Backpressure
    }

    /// The contents after an accepted push of `x`.
    pub open spec fn pushed(&self, x: T) -> Seq<T> {
        if self.push_drops_head() {
            self.contents().drop_first().push(x)
        } else {
            self.contents().push(x)
        }
    }

    /// The capacity after an accepted push, before the load-driven adjustment.
    pub open spec fn capacity_before_adjust(&self) -> usize {
        if self.push_expands() {
            doubled(self.capacity(), self.max_size())
        } else {
            self.capacity()
        }
    }
}

/// The capacity that the load-driven adjustment picks, given the load after an operation.
/// A shrink below the current length is refused and leaves the capacity as it was.
pub open spec fn adjusted_capacity(
    cap: usize,
    len: int,
    min: usize,
    max: usize,
    writes: u64,
    reads: u64,
    auto: bool,
) -> usize {
    if !auto {
        cap
    } else if load_is_high(writes, reads) {
        scaled_up(cap, max)
    } else if load_is_low(writes, reads) && scaled_down(cap, size_floor(min)) >= len {
        scaled_down(cap, size_floor(min))
    } else {
        cap
    }
}

impl<T> AdaptiveBuffer<T> {
    /// A buffer with policy `DropOldest`. Its first capacity is 1000, brought within the bounds.
    pub fn new(min_size: usize, max_size: usize) -> (r: Self)
        requires
            min_size <= max_size,
            1 <= max_size,
        ensures
            r.wf(),
            r.contents().len() == 0,
            r.min_size() == min_size,
            r.max_size() == max_size,
            r.capacity() == (if DEFAULT_INITIAL_CAPACITY < size_floor(min_size) {
                size_floor(min_size)
            } else if DEFAULT_INITIAL_CAPACITY > max_size {
                max_size
            } else {
                DEFAULT_INITIAL_CAPACITY
            }),
            r.strategy() == OverflowStrategy::DropOldest,
            r.resizes(),
            r.writes() == 0 && r.reads() == 0,
            r.metrics_view() == fresh_metrics(),
    {
        let lowest = if min_size == 0 {
            1
        } else {
            min_size
        };
        let initial = if DEFAULT_INITIAL_CAPACITY < lowest {
            lowest
        } else if DEFAULT_INITIAL_CAPACITY > max_size {
            max_size
        } else {
            DEFAULT_INITIAL_CAPACITY
        };
        AdaptiveBuffer {
            min_size,
            max_size,
            current_capacity: initial,
            data: Vec::new(),
            overflow_strategy: OverflowStrategy::DropOldest,
            metrics: BufferMetrics::new(),
            load_tracker: LoadTracker::new(),
            auto_resize: true,
        }
    }

    /// A buffer that starts at `initial` items of capacity.
    pub fn with_bounds(
        initial: usize,
        min_size: usize,
        max_size: usize,
        strategy: OverflowStrategy,
    ) -> (r: Self)
        requires
            min_size <= initial <= max_size,
            1 <= initial,
        ensures
            r.wf(),
            r.contents().len() == 0,
            r.min_size() == min_size,
            r.max_size() == max_size,
            r.capacity() == initial,
            r.strategy() == strategy,
            r.resizes(),
            r.writes() == 0 && r.reads() == 0,
            r.metrics_view() == fresh_metrics(),
    {
        AdaptiveBuffer {
            min_size,
            max_size,
            current_capacity: initial,
            data: Vec::new(),
            overflow_strategy: strategy,
            metrics: BufferMetrics::new(),
            load_tracker: LoadTracker::new(),
            auto_resize: true,
        }
    }

    /// A buffer with the given overflow policy and otherwise as `new`.
    pub fn with_overflow_strategy(min_size: usize, max_size: usize, strategy: OverflowStrategy) -> (r:
        Self)
        requires
            min_size <= max_size,
            1 <= max_size,
        ensures
            r.wf(),
            r.contents().len() == 0,
            r.min_size() == min_size,
            r.max_size() == max_size,
            r.capacity() == (if DEFAULT_INITIAL_CAPACITY < size_floor(min_size) {
                size_floor(min_size)
            } else if DEFAULT_INITIAL_CAPACITY > max_size {
                max_size
            } else {
                DEFAULT_INITIAL_CAPACITY
            }),
            r.strategy() == strategy,
            r.resizes(),
            r.writes() == 0 && r.reads() == 0,
            r.metrics_view() == fresh_metrics(),
    {
        let mut buffer = Self::new(min_size, max_size);
        buffer.overflow_strategy = strategy;
        buffer
    }

    /// Turns the load-driven resizing on or off.
    pub fn set_auto_resize(&mut self, on: bool)
        requires
            old(self).wf(),
        ensures
            final(self).wf(),
            final(self).resizes() == on,
            final(self).contents() == old(self).contents(),
            final(self).capacity() == old(self).capacity(),
            final(self).min_size() == old(self).min_size(),
            final(self).max_size() == old(self).max_size(),
            final(self).strategy() == old(self).strategy(),
            final(self).writes() == old(self).writes(),
            final(self).reads() == old(self).reads(),
            final(self).metrics_view() == old(self).metrics_view(),
    {
        self.auto_resize = on;
    }

    /// Appends `item`, applying the overflow policy when the buffer is at capacity.
    /// Every call counts as a write; an accepted push then updates the peak size and the
    /// utilization average and lets the load adjust the capacity.
    pub fn push(&mut self, item: T) -> (r: Result<(), BufferError>)
        requires
            old(self).wf(),
        ensures
            final(self).wf(),
            final(self).min_size() == old(self).min_size(),
            final(self).max_size() == old(self).max_size(),
            final(self).strategy() == old(self).strategy(),
            final(self).resizes() == old(self).resizes(),
            final(self).writes() == sat_inc(old(self).writes()),
            final(self).reads() == old(self).reads(),
            final(self).metrics_view().total_writes == sat_inc(old(self).metrics_view().total_writes),
            r is Err <==> old(self).push_refused(),
            r is Err ==> r == Err::<(), BufferError>(BufferError::BufferFull),
            r is Err ==> final(self).contents() == old(self).contents() && final(self).capacity()
                == old(self).capacity(),
            r is Ok ==> final(self).contents() == old(self).pushed(item),
            r is Ok ==> final(self).capacity() == adjusted_capacity(
                old(self).capacity_before_adjust(),
                old(self).pushed(item).len() as int,
                old(self).min_size(),
                old(self).max_size(),
                sat_inc(old(self).writes()),
                old(self).reads(),
                old(self).resizes(),
            ),
            final(self).metrics_view().total_overflow_events == (if old(self).push_drops_head() {
                sat_inc(old(self).metrics_view().total_overflow_events)
            } else {
                old(self).metrics_view().total_overflow_events
            }),
            r is Ok ==> final(self).metrics_view().max_size_reached as int == if old(self).metrics_view().max_size_reached >= final(self).contents().len() {
                old(self).metrics_view().max_size_reached as int
            } else {
                final(self).contents().len() as int
            },
            r is Ok ==> final(self).metrics_view().current_size == final(self).contents().len(),
            r is Ok ==> final(self).metrics_view().average_utilization as int == ema_step(
                old(self).metrics_view().average_utilization as int,
                utilization_of(
                    final(self).contents().len() as int,
                    old(self).capacity_before_adjust() as int,
                ),
            ),
    {
        self.metrics.total_writes = self.metrics.total_writes.saturating_add(1);
        self.load_tracker.record_write();
        let cap = self.current_capacity;
        if self.data.len() >= cap {
            match self.overflow_strategy {
                OverflowStrategy::DropOldest => {
                    self.data.remove(0);
                    self.metrics.total_overflow_events =
                        self.metrics.total_overflow_events.saturating_add(1);
                },
                OverflowStrategy::Backpressure => {
                    return Err(BufferError::BufferFull);
                },
                OverflowStrategy::Expand => {
                    if cap < self.max_size {
                        let grown = if (cap as u128) * 2 < self.max_size as u128 {
                            cap * 2
                        } else {
                            self.max_size
                        };
                        self.set_capacity(grown);
                    } else {
                        self.data.remove(0);
                        self.metrics.total_overflow_events =
                            self.metrics.total_overflow_events.saturating_add(1);
                    }
                },
            }
        }
        self.data.push(item);
        let len = self.data.len();
        self.metrics.current_size = len;
        if len > self.metrics.max_size_reached {
            self.metrics.max_size_reached = len;
        }
        let util = Self::utilization_ppm(len, self.current_capacity);
        let avg = self.metrics.average_utilization as u128;
        self.metrics.average_utilization = ((9 * avg + util as u128) / 10) as u64;
        if self.auto_resize {
            self.check_and_adjust_capacity();
        }
        Ok(())
    }

    /// Removes and returns the head. Every call counts as a read and lets the load adjust
    /// the capacity.
    pub fn pop(&mut self) -> (r: Option<T>)
        requires
            old(self).wf(),
        ensures
            final(self).wf(),
            final(self).min_size() == old(self).min_size(),
            final(self).max_size() == old(self).max_size(),
            final(self).strategy() == old(self).strategy(),
            final(self).resizes() == old(self).resizes(),
            final(self).metrics_view().total_writes == old(self).metrics_view().total_writes,
            final(self).metrics_view().total_overflow_events == old(
                self
            ).metrics_view().total_overflow_events,
            final(self).writes() == old(self).writes(),
            final(self).reads() == sat_inc(old(self).reads()),
            old(self).contents().len() == 0 ==> r is None && final(self).contents() == old(self).contents(),
            old(self).contents().len() > 0 ==> r == Some(old(self).contents()[0]) && final(self).contents() == old(self).contents().drop_first(),
            final(self).capacity() == adjusted_capacity(
                old(self).capacity(),
                final(self).contents().len() as int,
                old(self).min_size(),
                old(self).max_size(),
                old(self).writes(),
                sat_inc(old(self).reads()),
                old(self).resizes(),
            ),
    {
        let item = if self.data.len() > 0 {
            Some(self.data.remove(0))
        } else {
            None
        };
        self.load_tracker.record_read();
        if self.auto_resize {
            self.check_and_adjust_capacity();
        }
        item
    }

    /// `len` items in `cap` slots, in parts per million.
    fn utilization_ppm(len: usize, cap: usize) -> (r: u64)
        requires
            0 < cap,
            len <= cap,
        ensures
            r as int == utilization_of(len as int, cap as int),
            r <= PPM,
    {
        let v = (len as u128) * (PPM as u128) / (cap as u128);
        assert(v as int <= PPM as int) by (nonlinear_arith)
            requires
                v as int == (len as int) * (PPM as int) / (cap as int),
                len <= cap,
                0 < cap,
        ;
        v as u64
    }

    /// Current utilization in parts per million.
    pub fn utilization(&self) -> (r: u64)
        requires
            self.wf(),
        ensures
            r as int == utilization_of(self.contents().len() as int, self.capacity() as int),
    {
        Self::utilization_ppm(self.data.len(), self.current_capacity)
    }

    pub fn len(&self) -> (r: usize)
        ensures
            r == self.contents().len(),
    {
        self.data.len()
    }

    pub fn is_empty(&self) -> (r: bool)
        ensures
            r == (self.contents().len() == 0),
    {
        self.data.len() == 0
    }

    pub fn metrics(&self) -> (r: BufferMetrics)
        ensures
            r == self.metrics_view(),
    {
        self.metrics
    }

    pub fn current_capacity(&self) -> (r: usize)
        ensures
            r == self.capacity(),
    {
        self.current_capacity
    }

    /// Sets the capacity and records a resize.
    fn set_capacity(&mut self, new_capacity: usize)
        requires
            old(self).wf(),
            old(self).min_size <= new_capacity <= old(self).max_size,
            1 <= new_capacity,
            old(self).data@.len() <= new_capacity,
        ensures
            final(self).wf(),
            final(self).current_capacity == new_capacity,
            final(self).data == old(self).data,
            final(self).min_size == old(self).min_size,
            final(self).max_size == old(self).max_size,
            final(self).overflow_strategy == old(self).overflow_strategy,
            final(self).auto_resize == old(self).auto_resize,
            final(self).load_tracker == old(self).load_tracker,
            final(self).metrics.total_writes == old(self).metrics.total_writes,
            final(self).metrics.total_overflow_events == old(self).metrics.total_overflow_events,
            final(self).metrics.current_size == old(self).metrics.current_size,
            final(self).metrics.max_size_reached == old(self).metrics.max_size_reached,
            final(self).metrics.average_utilization == old(self).metrics.average_utilization,
            final(self).metrics.resize_count == sat_inc(old(self).metrics.resize_count),
            final(self).metrics.last_resize_time is Some,
    {
        self.current_capacity = new_capacity;
        self.metrics.last_resize_time = Some(now_millis());
        self.metrics.resize_count = self.metrics.resize_count.saturating_add(1);
    }

    /// Sets the capacity to `new_capacity`. Refused below the current length or outside
    /// the bounds, which leaves the buffer as it was.
    pub fn resize_buffer(&mut self, new_capacity: usize) -> (r: Result<(), BufferError>)
        requires
            old(self).wf(),
        ensures
            final(self).wf(),
            final(self).contents() == old(self).contents(),
            final(self).min_size() == old(self).min_size(),
            final(self).max_size() == old(self).max_size(),
            final(self).strategy() == old(self).strategy(),
            final(self).resizes() == old(self).resizes(),
            final(self).writes() == old(self).writes(),
            final(self).reads() == old(self).reads(),
            r is Ok <==> (old(self).contents().len() <= new_capacity && size_floor(old(self).min_size())
                <= new_capacity <= old(self).max_size()),
            r is Ok ==> final(self).capacity() == new_capacity,
            r is Err ==> final(self).capacity() == old(self).capacity(),
            (new_capacity < old(self).contents().len()) ==> r == Err::<(), BufferError>(
                BufferError::CapacityTooSmall,
            ),
    {
        if new_capacity < self.data.len() {
            return Err(BufferError::CapacityTooSmall);
        }
        if new_capacity < self.min_size || new_capacity == 0 || new_capacity > self.max_size {
            return Err(BufferError::OperationFailed(String::from_str("capacity out of bounds")));
        }
        self.set_capacity(new_capacity);
        Ok(())
    }

    /// Adjusts the capacity to a load given in parts per thousand: above 800 it grows by
    /// half (up to the maximum), below 300 it shrinks by a quarter (down to the minimum,
    /// and never below the current length).
    pub fn adjust_capacity(&mut self, load_permille: u64)
        requires
            old(self).wf(),
        ensures
            final(self).wf(),
            final(self).contents() == old(self).contents(),
            final(self).min_size() == old(self).min_size(),
            final(self).max_size() == old(self).max_size(),
            final(self).strategy() == old(self).strategy(),
            final(self).resizes() == old(self).resizes(),
            final(self).writes() == old(self).writes(),
            final(self).reads() == old(self).reads(),
            final(self).capacity() == (if load_permille > 800 {
                scaled_up(old(self).capacity(), old(self).max_size())
            } else if load_permille < 300 && scaled_down(old(self).capacity(), size_floor(old(self).min_size()))
                >= old(self).contents().len() {
                scaled_down(old(self).capacity(), size_floor(old(self).min_size()))
            } else {
                old(self).capacity()
            }),
    {
        if load_permille > 800 {
            self.grow();
        } else if load_permille < 300 {
            self.shrink();
        }
    }

    fn grow(&mut self)
        requires
            old(self).wf(),
        ensures
            final(self).wf(),
            final(self).data == old(self).data,
            final(self).min_size == old(self).min_size,
            final(self).max_size == old(self).max_size,
            final(self).overflow_strategy == old(self).overflow_strategy,
            final(self).auto_resize == old(self).auto_resize,
            final(self).load_tracker == old(self).load_tracker,
            final(self).metrics.total_writes == old(self).metrics.total_writes,
            final(self).metrics.total_overflow_events == old(self).metrics.total_overflow_events,
            final(self).metrics.current_size == old(self).metrics.current_size,
            final(self).metrics.max_size_reached == old(self).metrics.max_size_reached,
            final(self).metrics.average_utilization == old(self).metrics.average_utilization,
            final(self).current_capacity == scaled_up(old(self).current_capacity, old(self).max_size),
    {
        let cap = self.current_capacity;
        let up = (cap as u128) * 3 / 2;
        let target = if up < self.max_size as u128 {
            up as usize
        } else {
            self.max_size
        };
        if target != cap {
            self.set_capacity(target);
        }
    }

    fn shrink(&mut self)
        requires
            old(self).wf(),
        ensures
            final(self).wf(),
            final(self).data == old(self).data,
            final(self).min_size == old(self).min_size,
            final(self).max_size == old(self).max_size,
            final(self).overflow_strategy == old(self).overflow_strategy,
            final(self).auto_resize == old(self).auto_resize,
            final(self).load_tracker == old(self).load_tracker,
            final(self).metrics.total_writes == old(self).metrics.total_writes,
            final(self).metrics.total_overflow_events == old(self).metrics.total_overflow_events,
            final(self).metrics.current_size == old(self).metrics.current_size,
            final(self).metrics.max_size_reached == old(self).metrics.max_size_reached,
            final(self).metrics.average_utilization == old(self).metrics.average_utilization,
            final(self).current_capacity == (if scaled_down(
                old(self).current_capacity,
                size_floor(old(self).min_size),
            ) >= old(self).data@.len() {
                scaled_down(old(self).current_capacity, size_floor(old(self).min_size))
            } else {
                old(self).current_capacity
            }),
    {
        let cap = self.current_capacity;
        let down = (cap as u128) * 3 / 4;
        let lowest = if self.min_size == 0 {
            1
        } else {
            self.min_size
        };
        let target = if down > lowest as u128 {
            down as usize
        } else {
            lowest
        };
        if target != cap && target >= self.data.len() {
            self.set_capacity(target);
        }
    }

    /// The load-driven adjustment run after each push and pop.
    fn check_and_adjust_capacity(&mut self)
        requires
            old(self).wf(),
        ensures
            final(self).wf(),
            final(self).data == old(self).data,
            final(self).min_size == old(self).min_size,
            final(self).max_size == old(self).max_size,
            final(self).overflow_strategy == old(self).overflow_strategy,
            final(self).auto_resize == old(self).auto_resize,
            final(self).load_tracker == old(self).load_tracker,
            final(self).metrics.total_writes == old(self).metrics.total_writes,
            final(self).metrics.total_overflow_events == old(self).metrics.total_overflow_events,
            final(self).metrics.current_size == old(self).metrics.current_size,
            final(self).metrics.max_size_reached == old(self).metrics.max_size_reached,
            final(self).metrics.average_utilization == old(self).metrics.average_utilization,
            final(self).current_capacity == adjusted_capacity(
                old(self).current_capacity,
                old(self).data@.len() as int,
                old(self).min_size,
                old(self).max_size,
                old(self).load_tracker.write_count,
                old(self).load_tracker.read_count,
                true,
            ),
    {
        if self.load_tracker.is_high() {
            self.grow();
        } else if self.load_tracker.is_low() {
            self.shrink();
        }
    }

    /// Removes every item and returns the capacity to the minimum.
    pub fn clear(&mut self)
        requires
            old(self).wf(),
        ensures
            final(self).wf(),
            final(self).contents().len() == 0,
            final(self).capacity() == size_floor(old(self).min_size()),
            final(self).min_size() == old(self).min_size(),
            final(self).max_size() == old(self).max_size(),
            final(self).strategy() == old(self).strategy(),
            final(self).resizes() == old(self).resizes(),
            final(self).writes() == old(self).writes(),
            final(self).reads() == old(self).reads(),
            final(self).metrics_view() == old(self).metrics_view(),
    {
        self.data.clear();
        self.current_capacity = if self.min_size == 0 {
            1
        } else {
            self.min_size
        };
    }
}

/// Every well-formed buffer holds at most `capacity` items, and its capacity lies between
/// `min_size` and `max_size`, and never below one item. Constructors establish this and every method
/// keeps it.
pub proof fn lemma_buffer_bounds<T>(b: &AdaptiveBuffer<T>)
    requires
        b.wf(),
    ensures
        b.contents().len() <= b.capacity(),
        b.min_size() <= b.capacity() <= b.max_size(),
        1 <= b.capacity(),
{
}

/// The utilization average never rises above a level that it and every new reading stay
/// at or below: a buffer that stays quiet keeps its average low.
pub proof fn lemma_average_stays_below(avg: int, sample: int, level: int)
    requires
        0 <= avg <= level,
        0 <= sample <= level,
    ensures
        0 <= ema_step(avg, sample) <= level,
{
}

} // verus!
