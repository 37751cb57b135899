//! Performance helpers: a pool of reusable byte buffers, a bounded frame
//! queue, the bitrate adaptation of the transmission path and the input
//! event queue with its batching and latency objective.
//!
//! Latencies are whole milliseconds; instants are milliseconds since the
//! Unix epoch, handed in by the caller.

use vstd::prelude::*;

verus! {

/// Memory accounting.
#[derive(Debug, Clone, Copy)]
pub struct MemoryStats {
    pub allocated_bytes: u64,
    pub peak_bytes: u64,
    pub buffer_pool_size: usize,
    pub active_buffers: usize,
    pub frame_buffer_count: usize,
    pub frame_buffer_bytes: u64,
}

/// `x + 1`, saturating.
pub open spec fn sat_inc_usize(x: usize) -> usize {
    if x == usize::MAX {
        x
    } else {
        (x + 1) as usize
    }
}

/// A bounded pool of byte buffers.
pub struct BufferPool {
    buffers: Vec<Vec<u8>>,
    buffer_size: usize,
    max_buffers: usize,
    allocated_count: usize,
    reused_count: usize,
}

impl BufferPool {
    pub closed spec fn pooled(&self) -> nat {
        self.buffers@.len()
    }

    pub closed spec fn capacity(&self) -> nat {
        self.max_buffers as nat
    }

    pub closed spec fn counters(&self) -> (usize, usize) {
        (self.allocated_count, self.reused_count)
    }

    /// The pool never holds more buffers than its bound.
    pub closed spec fn wf(&self) -> bool {
        self.buffers@.len() <= self.max_buffers
    }

    /// An empty pool of `max_buffers` buffers of `buffer_size` bytes.
    pub fn new(buffer_size: usize, max_buffers: usize) -> (r: Self)
        ensures
            r.wf(),
            r.pooled() == 0,
            r.capacity() == max_buffers,
            r.counters() == (0usize, 0usize),
    {
        BufferPool { buffers: Vec::new(), buffer_size, max_buffers, allocated_count: 0, reused_count: 0 }
    }

    /// An empty buffer: a pooled one when there is one (counted as reused),
    /// otherwise a new one (counted as allocated). Counters saturate.
    pub fn acquire(&mut self) -> (r: Vec<u8>)
        requires
            old(self).wf(),
        ensures
            final(self).wf(),
            r@.len() == 0,
            old(self).pooled() > 0 ==> final(self).pooled() == old(self).pooled() - 1 && final(self).counters() == (
                old(self).counters().0,
                sat_inc_usize(old(self).counters().1),
            ),
            old(self).pooled() == 0 ==> final(self).pooled() == 0 && final(self).counters() == (
                sat_inc_usize(old(self).counters().0),
                old(self).counters().1,
            ),
            final(self).capacity() == old(self).capacity(),
    {
        if self.buffers.len() > 0 {
            let mut buffer = self.buffers.remove(0);
            buffer.clear();
            self.reused_count = self.reused_count.saturating_add(1);
            buffer
        } else {
            self.allocated_count = self.allocated_count.saturating_add(1);
            Vec::with_capacity(self.buffer_size)
        }
    }

    /// Returns a buffer to the pool, or drops it when the pool is full.
    pub fn release(&mut self, buffer: Vec<u8>)
        requires
            old(self).wf(),
        ensures
            final(self).wf(),
            old(self).pooled() < old(self).capacity() ==> final(self).pooled() == old(self).pooled() + 1,
            old(self).pooled() >= old(self).capacity() ==> final(self).pooled() == old(self).pooled(),
            final(self).capacity() == old(self).capacity(),
            final(self).counters() == old(self).counters(),
    {
        if self.buffers.len() < self.max_buffers {
            self.buffers.push(buffer);
        }
    }

    /// (allocated, reused).
    pub fn stats(&self) -> (r: (usize, usize))
        ensures
            r == self.counters(),
    {
        (self.allocated_count, self.reused_count)
    }
}

/// Pixel formats of queued frames.
#[derive(Debug, Clone, Copy, PartialEq, Eq, Structural)]
pub enum FrameFormat {
    RGBA,
    BGRA,
    NV12,
    I420,
}

/// A queued frame.
#[derive(Debug, Clone)]
pub struct FrameBuffer {
    pub id: u64,
    pub timestamp: u64,
    pub data: Vec<u8>,
    pub width: u32,
    pub height: u32,
    pub format: FrameFormat,
}

/// Total payload bytes of a list of frames.
pub open spec fn frame_bytes(s: Seq<FrameBuffer>) -> nat
    decreases s.len(),
{
    if s.len() == 0 {
        0
    } else {
        (frame_bytes(s.drop_last()) + s.last().data@.len()) as nat
    }
}

/// A bounded FIFO of frames that drops the oldest when full.
pub struct FrameBufferManager {
    buffers: Vec<FrameBuffer>,
    max_buffers: usize,
    total_bytes: u64,
    dropped_frames: u64,
}

impl FrameBufferManager {
    pub closed spec fn frames(&self) -> Seq<FrameBuffer> {
        self.buffers@
    }

    pub closed spec fn capacity(&self) -> nat {
        self.max_buffers as nat
    }

    pub closed spec fn dropped(&self) -> u64 {
        self.dropped_frames
    }

    pub closed spec fn bytes(&self) -> u64 {
        self.total_bytes
    }

    /// The queue respects its bound (one frame at least) and the byte count
    /// is exact.
    pub closed spec fn wf(&self) -> bool {
        &&& self.buffers@.len() <= if self.max_buffers == 0 {
            1
        } else {
            self.max_buffers as int
        }
        &&& self.total_bytes == frame_bytes(self.buffers@)
    }

    /// An empty queue for `max_buffers` frames.
    pub fn new(max_buffers: usize) -> (r: Self)
        ensures
            r.wf(),
            r.frames().len() == 0,
            r.capacity() == max_buffers,
            r.dropped() == 0,
    {
        FrameBufferManager { buffers: Vec::new(), max_buffers, total_bytes: 0, dropped_frames: 0 }
    }

    /// Appends a frame, dropping the oldest one first when full. The byte
    /// total must stay representable.
    pub fn push_frame(&mut self, frame: FrameBuffer)
        requires
            old(self).wf(),
            frame_bytes(old(self).frames()) + frame.data@.len() <= u64::MAX,
        ensures
            final(self).wf(),
            ({
                let full = old(self).frames().len() >= old(self).capacity() && old(self).frames().len() > 0;
                let kept = if full {
                    old(self).frames().subrange(1, old(self).frames().len() as int)
                } else {
                    old(self).frames()
                };
                &&& final(self).frames() == kept.push(frame)
                &&& final(self).dropped() == (if full {
                    sat_inc(old(self).dropped())
                } else {
                    old(self).dropped()
                })
            }),
            final(self).capacity() == old(self).capacity(),
    {
        if self.buffers.len() >= self.max_buffers && self.buffers.len() > 0 {
            let ghost before = self.buffers@;
            let old_frame = self.buffers.remove(0);
            proof {
                lemma_frame_bytes_front(before);
            }
            self.total_bytes = self.total_bytes - old_frame.data.len() as u64;
            self.dropped_frames = if self.dropped_frames == u64::MAX {
                u64::MAX
            } else {
                self.dropped_frames + 1
            };
        }
        let ghost before = self.buffers@;
        proof {
            lemma_frame_bytes_front_bound(before, old(self).buffers@);
        }
        self.total_bytes = self.total_bytes + frame.data.len() as u64;
        self.buffers.push(frame);
        assert(self.buffers@.drop_last() == before);
    }

    /// Takes the oldest frame.
    pub fn pop_frame(&mut self) -> (r: Option<FrameBuffer>)
        requires
            old(self).wf(),
        ensures
            final(self).wf(),
            old(self).frames().len() == 0 ==> r is None && final(self).frames() == old(self).frames(),
            old(self).frames().len() > 0 ==> r == Some(old(self).frames()[0]) && final(self).frames() == old(self).frames().subrange(1, old(self).frames().len() as int),
            final(self).dropped() == old(self).dropped(),
            final(self).capacity() == old(self).capacity(),
    {
        if self.buffers.len() == 0 {
            return None;
        }
        let ghost before = self.buffers@;
        let frame = self.buffers.remove(0);
        proof {
            lemma_frame_bytes_front(before);
        }
        self.total_bytes = self.total_bytes - frame.data.len() as u64;
        Some(frame)
    }

    /// (queued frames, queued bytes, dropped frames).
    pub fn stats(&self) -> (r: (usize, u64, u64))
        requires
            self.wf(),
        ensures
            r.0 == self.frames().len(),
            r.1 == frame_bytes(self.frames()),
            r.2 == self.dropped(),
    {
        (self.buffers.len(), self.total_bytes, self.dropped_frames)
    }

    /// Empties the queue.
    pub fn clear(&mut self)
        requires
            old(self).wf(),
        ensures
            final(self).wf(),
            final(self).frames().len() == 0,
            final(self).dropped() == old(self).dropped(),
            final(self).capacity() == old(self).capacity(),
    {
        self.buffers = Vec::new();
        self.total_bytes = 0;
    }
}

/// `x + 1`, saturating.
pub open spec fn sat_inc(x: u64) -> u64 {
    if x == u64::MAX {
        x
    } else {
        (x + 1) as u64
    }
}

proof fn lemma_frame_bytes_front(s: Seq<FrameBuffer>)
    requires
        s.len() > 0,
    ensures
        frame_bytes(s) == s[0].data@.len() + frame_bytes(s.subrange(1, s.len() as int)),
    decreases s.len(),
{
    if s.len() == 1 {
        assert(s.drop_last().len() == 0);
        assert(s.subrange(1, 1).len() == 0);
        assert(frame_bytes(s.drop_last()) == 0);
        assert(frame_bytes(s.subrange(1, 1)) == 0);
        assert(s.last() == s[0]);
    } else {
        let d = s.drop_last();
        lemma_frame_bytes_front(d);
        let t = s.subrange(1, s.len() as int);
        assert(t.drop_last() =~= d.subrange(1, d.len() as int));
        assert(t.last() == s.last());
        assert(d[0] == s[0]);
        assert(frame_bytes(t) == frame_bytes(t.drop_last()) + t.last().data@.len());
        assert(frame_bytes(s) == frame_bytes(d) + s.last().data@.len());
    }
}

proof fn lemma_frame_bytes_front_bound(now: Seq<FrameBuffer>, orig: Seq<FrameBuffer>)
    requires
        now == orig || (orig.len() > 0 && now == orig.subrange(1, orig.len() as int)),
    ensures
        frame_bytes(now) <= frame_bytes(orig),
{
    if now != orig {
        lemma_frame_bytes_front(orig);
    }
}

/// Sum of a list of samples.
pub open spec fn sum_of(s: Seq<u64>) -> nat
    decreases s.len(),
{
    if s.len() == 0 {
        0
    } else {
        (sum_of(s.drop_last()) + s.last()) as nat
    }
}

/// Number of samples kept in each sliding window.
pub const SAMPLE_WINDOW: usize = 100;

/// A sliding window of the last 100 samples, oldest first.
pub struct SampleWindow {
    samples: Vec<u64>,
}

impl SampleWindow {
    pub closed spec fn view(&self) -> Seq<u64> {
        self.samples@
    }

    /// The window holds at most 100 samples.
    pub closed spec fn wf(&self) -> bool {
        self.samples@.len() <= SAMPLE_WINDOW
    }

    /// An empty window.
    pub fn new() -> (r: Self)
        ensures
            r.wf(),
            r@.len() == 0,
    {
        SampleWindow { samples: Vec::new() }
    }

    /// Adds a sample, dropping the oldest beyond 100.
    pub fn record(&mut self, x: u64)
        requires
            old(self).wf(),
        ensures
            final(self).wf(),
            final(self)@ == (if old(self)@.len() >= SAMPLE_WINDOW {
                old(self)@.subrange(1, old(self)@.len() as int)
            } else {
                old(self)@
            }).push(x),
    {
        if self.samples.len() >= SAMPLE_WINDOW {
            self.samples.remove(0);
        }
        self.samples.push(x);
    }

    /// Number of samples.
    pub fn len(&self) -> (r: usize)
        ensures
            r == self@.len(),
    {
        self.samples.len()
    }

    /// Sum of the samples.
    pub fn sum(&self) -> (r: u128)
        requires
            self.wf(),
        ensures
            r == sum_of(self@),
    {
        let mut total: u128 = 0;
        let mut i: usize = 0;
        while i < self.samples.len()
            invariant
                i <= self.samples@.len(),
                self.samples@.len() <= SAMPLE_WINDOW,
                total == sum_of(self.samples@.subrange(0, i as int)),
                total <= i * 0xffff_ffff_ffff_ffff,
            decreases self.samples@.len() - i,
        {
            proof {
                assert(self.samples@.subrange(0, i + 1).drop_last() =~= self.samples@.subrange(0, i as int));
            }
            total = total + self.samples[i] as u128;
            i = i + 1;
        }
        assert(self.samples@.subrange(0, self.samples@.len() as int) =~= self.samples@);
        total
    }

    /// Mean of the samples, rounded down; zero when empty.
    pub fn mean(&self) -> (r: u64)
        requires
            self.wf(),
        ensures
            self@.len() == 0 ==> r == 0,
            self@.len() > 0 ==> r == sum_of(self@) / self@.len(),
    {
        let n = self.samples.len();
        if n == 0 {
            return 0;
        }
        let total = self.sum();
        proof {
            lemma_sum_bound(self@);
            lemma_mean_fits(sum_of(self@) as int, n as int);
        }
        (total / n as u128) as u64
    }
}

proof fn lemma_sum_bound(s: Seq<u64>)
    ensures
        sum_of(s) <= s.len() * 0xffff_ffff_ffff_ffff,
    decreases s.len(),
{
    if s.len() > 0 {
        lemma_sum_bound(s.drop_last());
    }
}

proof fn lemma_mean_fits(total: int, n: int)
    requires
        n > 0,
        0 <= total <= n * 0xffff_ffff_ffff_ffff,
    ensures
        total / n <= 0xffff_ffff_ffff_ffff,
{
    assert(total / n <= 0xffff_ffff_ffff_ffff) by (nonlinear_arith)
        requires
            n > 0,
            0 <= total <= n * 0xffff_ffff_ffff_ffff,
    ;
}

/// The bitrate after one adaptation step from `current`: down 20 % when the
/// mean latency exceeds 150 ms, down 10 % above 100 ms, up 10 % below 50 ms
/// while under the target and under the mean bandwidth; then clamped.
pub open spec fn next_bitrate(
    current: u64,
    target: u64,
    min: u64,
    max: u64,
    latency_sum: nat,
    latency_count: nat,
    mean_bandwidth: nat,
) -> int {
    let raw: int = if latency_sum > 150 * latency_count {
        current * 8 / 10
    } else if latency_sum > 100 * latency_count {
        current * 9 / 10
    } else if latency_sum < 50 * latency_count && current < target && mean_bandwidth > current {
        current * 11 / 10
    } else {
        current as int
    };
    if raw < min {
        min as int
    } else if raw > max {
        max as int
    } else {
        raw
    }
}

/// Adapts the transmission bitrate to measured latency and bandwidth.
pub struct TransmissionOptimizer {
    target_bitrate: u64,
    current_bitrate: u64,
    min_bitrate: u64,
    max_bitrate: u64,
    latency_samples: SampleWindow,
    bandwidth_samples: SampleWindow,
}

impl TransmissionOptimizer {
    pub closed spec fn wf(&self) -> bool {
        &&& self.min_bitrate <= self.max_bitrate
        &&& self.latency_samples.wf()
        &&& self.bandwidth_samples.wf()
    }

    pub closed spec fn current_spec(&self) -> u64 {
        self.current_bitrate
    }

    pub closed spec fn target_spec(&self) -> u64 {
        self.target_bitrate
    }

    pub closed spec fn bounds(&self) -> (u64, u64) {
        (self.min_bitrate, self.max_bitrate)
    }

    pub closed spec fn latencies(&self) -> Seq<u64> {
        self.latency_samples@
    }

    pub closed spec fn bandwidths(&self) -> Seq<u64> {
        self.bandwidth_samples@
    }

    /// An optimizer starting at `target_bitrate`, bounded by `[min, max]`.
    pub fn new(min_bitrate: u64, max_bitrate: u64, target_bitrate: u64) -> (r: Self)
        requires
            min_bitrate <= max_bitrate,
        ensures
            r.wf(),
            r.current_spec() == target_bitrate,
            r.target_spec() == target_bitrate,
            r.bounds() == (min_bitrate, max_bitrate),
            r.latencies().len() == 0 && r.bandwidths().len() == 0,
    {
        TransmissionOptimizer {
            target_bitrate,
            current_bitrate: target_bitrate,
            min_bitrate,
            max_bitrate,
            latency_samples: SampleWindow::new(),
            bandwidth_samples: SampleWindow::new(),
        }
    }

    /// Records a latency sample in milliseconds.
    pub fn record_latency(&mut self, latency_ms: u64)
        requires
            old(self).wf(),
        ensures
            final(self).wf(),
            final(self).latencies() == (if old(self).latencies().len() >= SAMPLE_WINDOW {
                old(self).latencies().subrange(1, old(self).latencies().len() as int)
            } else {
                old(self).latencies()
            }).push(latency_ms),
            final(self).bandwidths() == old(self).bandwidths(),
            final(self).current_spec() == old(self).current_spec(),
            final(self).target_spec() == old(self).target_spec(),
            final(self).bounds() == old(self).bounds(),
    {
        self.latency_samples.record(latency_ms);
    }

    /// Records a bandwidth sample in bits per second.
    pub fn record_bandwidth(&mut self, bandwidth_bps: u64)
        requires
            old(self).wf(),
        ensures
            final(self).wf(),
            final(self).bandwidths() == (if old(self).bandwidths().len() >= SAMPLE_WINDOW {
                old(self).bandwidths().subrange(1, old(self).bandwidths().len() as int)
            } else {
                old(self).bandwidths()
            }).push(bandwidth_bps),
            final(self).latencies() == old(self).latencies(),
            final(self).current_spec() == old(self).current_spec(),
            final(self).target_spec() == old(self).target_spec(),
            final(self).bounds() == old(self).bounds(),
    {
        self.bandwidth_samples.record(bandwidth_bps);
    }

    /// One adaptation step (see `next_bitrate`); without latency or
    /// bandwidth samples the bitrate stays. Returns the new bitrate.
    pub fn adapt_bitrate(&mut self) -> (r: u64)
        requires
            old(self).wf(),
        ensures
            final(self).wf(),
            r == final(self).current_spec(),
            old(self).latencies().len() == 0 || old(self).bandwidths().len() == 0 ==> r == old(self).current_spec(),
            old(self).latencies().len() > 0 && old(self).bandwidths().len() > 0 ==> r == next_bitrate(
                old(self).current_spec(),
                old(self).target_spec(),
                old(self).bounds().0,
                old(self).bounds().1,
                sum_of(old(self).latencies()),
                old(self).latencies().len(),
                sum_of(old(self).bandwidths()) / old(self).bandwidths().len(),
            ),
            old(self).latencies().len() > 0 && old(self).bandwidths().len() > 0 ==> old(self).bounds().0 <= r
                <= old(self).bounds().1,
            final(self).latencies() == old(self).latencies(),
            final(self).bandwidths() == old(self).bandwidths(),
            final(self).target_spec() == old(self).target_spec(),
            final(self).bounds() == old(self).bounds(),
    {
        let n = self.latency_samples.len();
        if n == 0 || self.bandwidth_samples.len() == 0 {
            return self.current_bitrate;
        }
        let latency_sum = self.latency_samples.sum();
        let mean_bandwidth = self.bandwidth_samples.mean();
        let current = self.current_bitrate;
        let n128 = n as u128;
        let raw: u128 = if latency_sum > 150 * n128 {
            current as u128 * 8 / 10
        } else if latency_sum > 100 * n128 {
            current as u128 * 9 / 10
        } else if latency_sum < 50 * n128 && current < self.target_bitrate && mean_bandwidth > current {
            current as u128 * 11 / 10
        } else {
            current as u128
        };
        let next: u64 = if raw < self.min_bitrate as u128 {
            self.min_bitrate
        } else if raw > self.max_bitrate as u128 {
            self.max_bitrate
        } else {
            raw as u64
        };
        self.current_bitrate = next;
        next
    }

    /// The current bitrate.
    pub fn get_current_bitrate(&self) -> (r: u64)
        ensures
            r == self.current_spec(),
    {
        self.current_bitrate
    }

    /// Sets the target bitrate, clamped to the bounds.
    pub fn set_target_bitrate(&mut self, bitrate: u64)
        requires
            old(self).wf(),
        ensures
            final(self).wf(),
            final(self).target_spec() == (if bitrate < old(self).bounds().0 {
                old(self).bounds().0
            } else if bitrate > old(self).bounds().1 {
                old(self).bounds().1
            } else {
                bitrate
            }),
            final(self).current_spec() == old(self).current_spec(),
            final(self).bounds() == old(self).bounds(),
    {
        self.target_bitrate = if bitrate < self.min_bitrate {
            self.min_bitrate
        } else if bitrate > self.max_bitrate {
            self.max_bitrate
        } else {
            bitrate
        };
    }

    /// Mean latency in milliseconds, rounded down; zero without samples.
    pub fn get_avg_latency(&self) -> (r: u64)
        requires
            self.wf(),
        ensures
            self.latencies().len() == 0 ==> r == 0,
            self.latencies().len() > 0 ==> r == sum_of(self.latencies()) / self.latencies().len(),
    {
        self.latency_samples.mean()
    }
}

/// Kinds of input events.
#[derive(Debug, Clone, Copy, PartialEq, Eq, Structural)]
pub enum InputEventType {
    MouseMove,
    MouseClick,
    MouseScroll,
    KeyDown,
    KeyUp,
    KeyPress,
}

/// The default priority of an event kind; lower is more urgent.
pub open spec fn priority_of(t: InputEventType) -> u8 {
    match t {
        InputEventType::KeyDown | InputEventType::KeyUp => 1,
        InputEventType::MouseClick => 2,
        InputEventType::KeyPress => 3,
        InputEventType::MouseScroll => 4,
        InputEventType::MouseMove => 5,
    }
}

impl InputEventType {
    /// The default priority: key down/up 1, click 2, key press 3, scroll 4,
    /// mouse move 5; lower is more urgent.
    pub fn default_priority(&self) -> (r: u8)
        ensures
            r == priority_of(*self),
    {
        match self {
            InputEventType::KeyDown | InputEventType::KeyUp => 1,
            InputEventType::MouseClick => 2,
            InputEventType::KeyPress => 3,
            InputEventType::MouseScroll => 4,
            InputEventType::MouseMove => 5,
        }
    }
}

/// A queued input event.
#[derive(Debug, Clone)]
pub struct InputEventEntry {
    pub event_type: InputEventType,
    /// Milliseconds since the Unix epoch.
    pub timestamp: u64,
    pub priority: u8,
    pub data: Vec<u8>,
}

/// Whether `a` goes before or together with `b` in a batch: by priority,
/// then by time.
pub open spec fn entry_le(a: InputEventEntry, b: InputEventEntry) -> bool {
    a.priority < b.priority || (a.priority == b.priority && a.timestamp <= b.timestamp)
}

/// Whether a batch is in order.
#[verifier::opaque]
pub open spec fn batch_sorted(s: Seq<InputEventEntry>) -> bool {
    forall|i: int, j: int| 0 <= i < j < s.len() ==> entry_le(s[i], s[j])
}

/// Whether no two mouse moves are adjacent.
#[verifier::opaque]
pub open spec fn moves_coalesced(s: Seq<InputEventEntry>) -> bool {
    forall|i: int|
        0 <= i < s.len() - 1 ==> !(#[trigger] s[i].event_type == InputEventType::MouseMove && s[i
            + 1].event_type == InputEventType::MouseMove)
}

/// Number of entries that are not mouse moves.
pub open spec fn non_moves(s: Seq<InputEventEntry>) -> nat
    decreases s.len(),
{
    if s.len() == 0 {
        0
    } else {
        (non_moves(s.drop_last()) + if s.last().event_type == InputEventType::MouseMove {
            0nat
        } else {
            1nat
        }) as nat
    }
}

/// Index of the last entry of largest priority number.
pub open spec fn last_lowest_priority(s: Seq<InputEventEntry>, i: int) -> bool {
    &&& 0 <= i < s.len()
    &&& forall|j: int| 0 <= j < s.len() ==> s[j].priority <= s[i].priority
    &&& forall|j: int| i < j < s.len() ==> s[j].priority < s[i].priority
}

/// The input queue with priority dropping, batching and a latency objective.
pub struct InputOptimizer {
    event_queue: Vec<InputEventEntry>,
    max_queue_size: usize,
    batch_interval_ms: u64,
    last_batch_time: u64,
    latency_samples: SampleWindow,
}

impl InputOptimizer {
    pub closed spec fn wf(&self) -> bool {
        &&& self.latency_samples.wf()
        &&& self.event_queue@.len() <= if self.max_queue_size == 0 {
            1
        } else {
            self.max_queue_size as int
        }
    }

    pub closed spec fn queue(&self) -> Seq<InputEventEntry> {
        self.event_queue@
    }

    pub closed spec fn capacity(&self) -> nat {
        self.max_queue_size as nat
    }

    pub closed spec fn last_batch(&self) -> u64 {
        self.last_batch_time
    }

    pub closed spec fn interval(&self) -> u64 {
        self.batch_interval_ms
    }

    pub closed spec fn latencies(&self) -> Seq<u64> {
        self.latency_samples@
    }

    /// An empty queue for `max_queue_size` events, batching every
    /// `batch_interval_ms` from `now`.
    pub fn new(max_queue_size: usize, batch_interval_ms: u64, now: u64) -> (r: Self)
        ensures
            r.wf(),
            r.queue().len() == 0,
            r.capacity() == max_queue_size,
            r.interval() == batch_interval_ms,
            r.last_batch() == now,
            r.latencies().len() == 0,
    {
        InputOptimizer {
            event_queue: Vec::new(),
            max_queue_size,
            batch_interval_ms,
            last_batch_time: now,
            latency_samples: SampleWindow::new(),
        }
    }

    fn lowest_priority_index(&self) -> (r: usize)
        requires
            self.event_queue@.len() > 0,
        ensures
            last_lowest_priority(self.event_queue@, r as int),
    {
        let mut best: usize = 0;
        let mut i: usize = 1;
        while i < self.event_queue.len()
            invariant
                1 <= i <= self.event_queue@.len(),
                best < i,
                forall|j: int| 0 <= j < i ==> self.event_queue@[j].priority <= self.event_queue@[best as int].priority,
                forall|j: int| best < j < i ==> self.event_queue@[j].priority < self.event_queue@[best as int].priority,
            decreases self.event_queue@.len() - i,
        {
            if self.event_queue[i].priority >= self.event_queue[best].priority {
                best = i;
            }
            i = i + 1;
        }
        best
    }

    /// Queues an event; while the queue is full, the last queued event of
    /// the lowest priority leaves first.
    pub fn queue_event(&mut self, event: InputEventEntry)
        requires
            old(self).wf(),
        ensures
            final(self).wf(),
            old(self).queue().len() < old(self).capacity() ==> final(self).queue() == old(self).queue().push(event),
            old(self).queue().len() >= old(self).capacity() && old(self).queue().len() > 0 ==> exists|i: int|
                last_lowest_priority(old(self).queue(), i) && final(self).queue() == old(self).queue().remove(
                    i,
                ).push(event),
            final(self).latencies() == old(self).latencies(),
            final(self).last_batch() == old(self).last_batch(),
            final(self).capacity() == old(self).capacity(),
    {
        if self.event_queue.len() >= self.max_queue_size && self.event_queue.len() > 0 {
            let idx = self.lowest_priority_index();
            let ghost before = self.event_queue@;
            self.event_queue.remove(idx);
            let ghost ev = event;
            self.event_queue.push(event);
            assert(self.event_queue@ == before.remove(idx as int).push(ev));
        } else {
            self.event_queue.push(event);
        }
    }

    /// The queued events as a batch once `batch_interval_ms` has passed since
    /// the last batch at `now`: in order of priority then time, with each run
    /// of adjacent mouse moves reduced to its latest. The queue is emptied.
    /// Before the interval has passed, nothing is taken.
    pub fn get_batch(&mut self, now: u64) -> (r: Vec<InputEventEntry>)
        requires
            old(self).wf(),
        ensures
            final(self).wf(),
            (now >= old(self).last_batch() && now - old(self).last_batch() < old(self).interval()) ==> r@.len() == 0
                && final(self).queue() == old(self).queue() && final(self).last_batch() == old(self).last_batch(),
            !(now >= old(self).last_batch() && now - old(self).last_batch() < old(self).interval()) ==> {
                &&& final(self).queue().len() == 0
                &&& final(self).last_batch() == now
                &&& batch_sorted(r@)
                &&& moves_coalesced(r@)
                &&& non_moves(r@) == non_moves(old(self).queue())
                &&& (old(self).queue().len() > non_moves(old(self).queue()) ==> r@.len() > non_moves(r@))
            },
            final(self).latencies() == old(self).latencies(),
            final(self).capacity() == old(self).capacity(),
    {
        if now >= self.last_batch_time && now - self.last_batch_time < self.batch_interval_ms {
            return Vec::new();
        }
        self.last_batch_time = now;
        let mut pending: Vec<InputEventEntry> = Vec::new();
        std::mem::swap(&mut pending, &mut self.event_queue);
        let sorted = sort_batch(pending);
        coalesce_moves(sorted)
    }

    /// Records an input latency sample in milliseconds.
    pub fn record_latency(&mut self, latency_ms: u64)
        requires
            old(self).wf(),
        ensures
            final(self).wf(),
            final(self).latencies() == (if old(self).latencies().len() >= SAMPLE_WINDOW {
                old(self).latencies().subrange(1, old(self).latencies().len() as int)
            } else {
                old(self).latencies()
            }).push(latency_ms),
            final(self).queue() == old(self).queue(),
    {
        self.latency_samples.record(latency_ms);
    }

    /// Mean input latency in milliseconds, rounded down; zero without
    /// samples.
    pub fn get_avg_latency(&self) -> (r: u64)
        requires
            self.wf(),
        ensures
            self.latencies().len() == 0 ==> r == 0,
            self.latencies().len() > 0 ==> r == sum_of(self.latencies()) / self.latencies().len(),
    {
        self.latency_samples.mean()
    }

    /// Whether the mean input latency is under 100 ms.
    pub fn meets_latency_requirement(&self) -> (r: bool)
        requires
            self.wf(),
        ensures
            r == (sum_of(self.latencies()) < 100 * self.latencies().len()),
    {
        let n = self.latency_samples.len() as u128;
        self.latency_samples.sum() < 100 * n
    }
}

/// The entries in order of priority, then time.
fn sort_batch(pending: Vec<InputEventEntry>) -> (r: Vec<InputEventEntry>)
    ensures
        batch_sorted(r@),
        r@.len() == pending@.len(),
        non_moves(r@) == non_moves(pending@),
{
    let mut pending = pending;
    let ghost orig = pending@;
    // Selection: repeatedly move out the first entry of smallest key.
    let mut sorted: Vec<InputEventEntry> = Vec::new();
    proof {
        lemma_empty_batch();
    }
    while pending.len() > 0
            invariant
                batch_sorted(sorted@),
                forall|i: int, j: int| 0 <= i < sorted@.len() && 0 <= j < pending@.len() ==> entry_le(sorted@[i], pending@[j]),
                non_moves(sorted@) + non_moves(pending@) == non_moves(orig),
                sorted@.len() + pending@.len() == orig.len(),
            decreases pending@.len(),
        {
            let mut m: usize = 0;
            let mut j: usize = 1;
            while j < pending.len()
                invariant
                    1 <= j <= pending@.len(),
                    m < j,
                    forall|k: int| 0 <= k < j ==> entry_le(pending@[m as int], pending@[k]),
                decreases pending@.len() - j,
            {
                let better = pending[j].priority < pending[m].priority || (pending[j].priority == pending[m].priority
                    && pending[j].timestamp < pending[m].timestamp);
                if better {
                    m = j;
                }
                j = j + 1;
            }
            let ghost p = pending@;
            let e = pending.remove(m);
            proof {
                lemma_non_moves_remove(p, m as int);
            }
            let ghost s = sorted@;
            proof {
                if s.len() > 0 {
                    assert(entry_le(s[s.len() - 1], p[m as int]));
                }
                lemma_push_sorted(s, e);
            }
            sorted.push(e);
            proof {
                lemma_non_moves_push(s, e);
                assert forall|a: int, b: int| 0 <= a < sorted@.len() && 0 <= b < pending@.len() implies entry_le(
                    sorted@[a],
                    pending@[b],
                ) by {
                    if b < m {
                        assert(pending@[b] == p[b]);
                    } else {
                        assert(pending@[b] == p[b + 1]);
                    }
                    if a < s.len() {
                        assert(sorted@[a] == s[a]);
                    }
                }
            }
        }
    sorted
}

/// Reduces each run of adjacent mouse moves of a sorted batch to its last.
fn coalesce_moves(sorted: Vec<InputEventEntry>) -> (r: Vec<InputEventEntry>)
    requires
        batch_sorted(sorted@),
    ensures
        batch_sorted(r@),
        moves_coalesced(r@),
        non_moves(r@) == non_moves(sorted@),
        sorted@.len() > non_moves(sorted@) ==> r@.len() > non_moves(r@),
{
    let mut sorted = sorted;
        let mut batch: Vec<InputEventEntry> = Vec::new();
        let mut held: Option<InputEventEntry> = None;
        let ghost all = sorted@;
        let ghost mut last_idx: int = 0;
        let ghost mut i: int = 0;
        proof {
            lemma_empty_batch();
        }
        while sorted.len() > 0
            invariant
                0 <= i <= all.len(),
                sorted@ == all.subrange(i, all.len() as int),
                batch_sorted(all),
                batch_sorted(batch@),
                moves_coalesced(batch@),
                batch@.len() > 0 ==> batch@.last().event_type != InputEventType::MouseMove,
                batch@.len() > 0 ==> 0 <= last_idx < i && batch@.last() == all[last_idx],
                held matches Some(h) ==> h.event_type == InputEventType::MouseMove && i > 0 && h == all[i - 1],
                non_moves(batch@) == non_moves(all.subrange(0, i)),
                all.subrange(0, i).len() > non_moves(all.subrange(0, i)) ==> (held is Some || batch@.len()
                    > non_moves(batch@)),
            decreases sorted@.len(),
        {
            let e = sorted.remove(0);
            proof {
                lemma_non_moves_le(batch@);
                assert(e == all[i]);
                assert(all.subrange(0, i + 1).drop_last() =~= all.subrange(0, i));
                assert(sorted@ =~= all.subrange(i + 1, all.len() as int));
            }
            if e.event_type == InputEventType::MouseMove {
                held = Some(e);
            } else {
                match held {
                    Some(h) => {
                        let ghost b = batch@;
                        batch.push(h);
                        proof {
                            lemma_non_moves_push(b, h);
                            if b.len() > 0 {
                                lemma_sorted_at(all, last_idx, i - 1);
                            }
                            lemma_push_sorted(b, h);
                            lemma_push_coalesced(b, h);
                            last_idx = i - 1;
                        }
                    },
                    None => {},
                }
                held = None;
                let ghost b = batch@;
                batch.push(e);
                proof {
                    lemma_non_moves_push(b, e);
                    if b.len() > 0 {
                        lemma_sorted_at(all, last_idx, i);
                    }
                    lemma_push_sorted(b, e);
                    lemma_push_coalesced(b, e);
                    last_idx = i;
                }
            }
            proof {
                i = i + 1;
            }
        }
        proof {
            assert(all.subrange(0, i) =~= all);
            lemma_non_moves_le(batch@);
        }
        match held {
            Some(h) => {
                let ghost b = batch@;
                batch.push(h);
                proof {
                    lemma_non_moves_push(b, h);
                    if b.len() > 0 {
                        lemma_sorted_at(all, last_idx, i - 1);
                    }
                    lemma_push_sorted(b, h);
                    lemma_push_coalesced(b, h);
                }
            },
            None => {},
        }
        assert(all.subrange(0, all.len() as int) =~= all);
        batch
}

proof fn lemma_empty_batch()
    ensures
        batch_sorted(Seq::<InputEventEntry>::empty()),
        moves_coalesced(Seq::<InputEventEntry>::empty()),
{
    reveal(batch_sorted);
    reveal(moves_coalesced);
}

proof fn lemma_non_moves_le(s: Seq<InputEventEntry>)
    ensures
        non_moves(s) <= s.len(),
    decreases s.len(),
{
    if s.len() > 0 {
        lemma_non_moves_le(s.drop_last());
    }
}

proof fn lemma_sorted_at(s: Seq<InputEventEntry>, x: int, y: int)
    requires
        batch_sorted(s),
        0 <= x <= y < s.len(),
    ensures
        entry_le(s[x], s[y]),
{
    reveal(batch_sorted);
}

proof fn lemma_push_sorted(b: Seq<InputEventEntry>, e: InputEventEntry)
    requires
        batch_sorted(b),
        b.len() > 0 ==> entry_le(b.last(), e),
    ensures
        batch_sorted(b.push(e)),
{
    reveal(batch_sorted);
    let c = b.push(e);
    assert forall|x: int, y: int| 0 <= x < y < c.len() implies entry_le(c[x], c[y]) by {
        if y == b.len() && x < b.len() {
            assert(entry_le(b[x], b[b.len() - 1]));
        } else {
            assert(c[x] == b[x] && c[y] == b[y]);
        }
    }
}

#[verifier::rlimit(40)]
proof fn lemma_push_coalesced(b: Seq<InputEventEntry>, e: InputEventEntry)
    requires
        moves_coalesced(b),
        b.len() > 0 ==> !(b.last().event_type == InputEventType::MouseMove && e.event_type == InputEventType::MouseMove),
    ensures
        moves_coalesced(b.push(e)),
{
    reveal(moves_coalesced);
    let c = b.push(e);
    assert forall|x: int| 0 <= x < c.len() - 1 implies !(#[trigger] c[x].event_type == InputEventType::MouseMove
        && c[x + 1].event_type == InputEventType::MouseMove) by {
        if x + 1 < b.len() {
            assert(c[x] == b[x] && c[x + 1] == b[x + 1]);
        } else {
            assert(c[x] == b.last() && c[x + 1] == e);
        }
    }
}

proof fn lemma_non_moves_push(s: Seq<InputEventEntry>, e: InputEventEntry)
    ensures
        non_moves(s.push(e)) == non_moves(s) + if e.event_type == InputEventType::MouseMove {
            0nat
        } else {
            1nat
        },
{
    assert(s.push(e).drop_last() =~= s);
}

proof fn lemma_non_moves_remove(s: Seq<InputEventEntry>, i: int)
    requires
        0 <= i < s.len(),
    ensures
        non_moves(s) == non_moves(s.remove(i)) + if s[i].event_type == InputEventType::MouseMove {
            0nat
        } else {
            1nat
        },
    decreases s.len(),
{
    if i < s.len() - 1 {
        lemma_non_moves_remove(s.drop_last(), i);
        assert(s.remove(i).drop_last() =~= s.drop_last().remove(i));
        assert(s.remove(i).last() == s.last());
    } else {
        assert(s.remove(i) =~= s.drop_last());
    }
}

} // verus!
