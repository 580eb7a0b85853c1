//! Shake-gesture recognition over a short window of pointer positions.
//!
//! Only horizontal motion is analysed: a shake is a quick left-right wiggle.
use vstd::prelude::*;
use std::collections::VecDeque;

verus! {

/// How long a sample stays in the window, in milliseconds.
pub const WINDOW_MS: u64 = 400;

/// Fewest horizontal direction changes that make a shake.
pub const MIN_DIRECTION_CHANGES: usize = 4;

/// Speed threshold, in pixels per second, at the highest sensitivity.
pub const MIN_THRESHOLD: u64 = 300;

/// Speed threshold, in pixels per second, at the lowest sensitivity.
pub const MAX_THRESHOLD: u64 = 900;

/// A pointer position and the time it was seen, in milliseconds of a monotonic clock.
#[derive(Debug, Clone, Copy, PartialEq, Eq, Structural)]
pub struct PositionSample {
    pub x: i32,
    pub y: i32,
    pub time_ms: u64,
}

/// Horizontal step into sample `i` from the one before it.
pub open spec fn delta(s: Seq<PositionSample>, i: int) -> int {
    s[i].x - s[i - 1].x
}

/// Whether the steps into samples `i - 1` and `i` point in opposite directions
/// (a zero step points nowhere).
pub open spec fn flips_at(s: Seq<PositionSample>, i: int) -> bool {
    (delta(s, i) > 0 && delta(s, i - 1) < 0) || (delta(s, i) < 0 && delta(s, i - 1) > 0)
}

/// Number of direction changes among the first `n` samples.
pub open spec fn direction_changes(s: Seq<PositionSample>, n: int) -> int
    decreases n,
{
    if n < 3 {
        0
    } else {
        direction_changes(s, n - 1) + if flips_at(s, n - 1) {
            1int
        } else {
            0int
        }
    }
}

pub open spec fn abs(v: int) -> int {
    if v < 0 {
        -v
    } else {
        v
    }
}

/// Horizontal distance travelled over the first `n` samples.
pub open spec fn total_distance(s: Seq<PositionSample>, n: int) -> int
    decreases n,
{
    if n < 2 {
        0
    } else {
        total_distance(s, n - 1) + abs(delta(s, n - 1))
    }
}

/// Speed threshold in thousandths of a pixel per second for a sensitivity in
/// thousandths: `900 - sensitivity * (900 - 300)`.
pub open spec fn threshold_milli(sensitivity_milli: int) -> int {
    MAX_THRESHOLD * 1000 - sensitivity_milli * (MAX_THRESHOLD - MIN_THRESHOLD)
}

/// Whether the window `s` holds a shake: at least four samples spanning some
/// time, at least four direction changes, and a horizontal speed
/// (`total distance / time span`) above the threshold.
pub open spec fn is_shake(s: Seq<PositionSample>, sensitivity_milli: int) -> bool {
    let n = s.len() as int;
    let span_ms = if n > 0 { s[n - 1].time_ms - s[0].time_ms } else { 0 };
    &&& n >= 4
    &&& span_ms > 0
    &&& direction_changes(s, n) >= MIN_DIRECTION_CHANGES
    &&& total_distance(s, n) * 1000 * 1000 > threshold_milli(sensitivity_milli) * span_ms
}

/// Samples ordered by time.
pub open spec fn time_ordered(s: Seq<PositionSample>) -> bool {
    forall|i: int, j: int| 0 <= i <= j < s.len() ==> s[i].time_ms <= s[j].time_ms
}

/// The window after dropping, from the front, samples more than the window's
/// length older than `now_ms`.
pub open spec fn evict(s: Seq<PositionSample>, now_ms: int) -> Seq<PositionSample>
    decreases s.len(),
{
    if s.len() > 0 && now_ms - s[0].time_ms > WINDOW_MS {
        evict(s.drop_first(), now_ms)
    } else {
        s
    }
}

/// Eviction keeps a suffix of the window; every sample it keeps lies within the
/// window's length of `now_ms` and every sample it drops lies beyond it, so an
/// old sample never counts toward direction changes or distance again.
pub proof fn lemma_evict_keeps_recent(s: Seq<PositionSample>, now_ms: int)
    requires
        time_ordered(s),
    ensures
        ({
            let w = evict(s, now_ms);
            let k = s.len() - w.len();
            &&& 0 <= k <= s.len()
            &&& w == s.subrange(k, s.len() as int)
            &&& forall|i: int| 0 <= i < k ==> now_ms - #[trigger] s[i].time_ms > WINDOW_MS
            &&& forall|i: int| 0 <= i < w.len() ==> now_ms - #[trigger] w[i].time_ms <= WINDOW_MS
        }),
    decreases s.len(),
{
    if s.len() > 0 && now_ms - s[0].time_ms > WINDOW_MS {
        let t = s.drop_first();
        assert(time_ordered(t)) by {
            assert forall|i: int, j: int| 0 <= i <= j < t.len() implies t[i].time_ms <= t[j].time_ms by {
                assert(t[i] == s[i + 1] && t[j] == s[j + 1]);
            }
        }
        lemma_evict_keeps_recent(t, now_ms);
        let w = evict(t, now_ms);
        let k = t.len() - w.len();
        assert(w == s.subrange(k + 1, s.len() as int));
        assert forall|i: int| 0 <= i < k + 1 implies now_ms - #[trigger] s[i].time_ms > WINDOW_MS by {
            if i > 0 {
                assert(s[i] == t[i - 1]);
            }
        }
    } else if s.len() > 0 {
        assert(s == s.subrange(0, s.len() as int));
        assert forall|i: int| 0 <= i < s.len() implies now_ms - #[trigger] s[i].time_ms <= WINDOW_MS by {
            assert(s[0].time_ms <= s[i].time_ms);
        }
    } else {
        assert(s == s.subrange(0, 0));
    }
}

proof fn lemma_monotone_no_changes(s: Seq<PositionSample>, n: int)
    requires
        0 <= n <= s.len(),
        forall|i: int, j: int| 0 <= i <= j < s.len() ==> s[i].x <= s[j].x,
    ensures
        direction_changes(s, n) == 0,
    decreases n,
{
    if n >= 3 {
        lemma_monotone_no_changes(s, n - 1);
        assert(s[n - 3].x <= s[n - 2].x <= s[n - 1].x);
    }
}

/// A window whose horizontal positions never decrease holds no shake, at any
/// sensitivity: motion in one direction has no direction change.
pub proof fn lemma_monotone_motion_is_no_shake(s: Seq<PositionSample>, sensitivity_milli: int)
    requires
        forall|i: int, j: int| 0 <= i <= j < s.len() ==> s[i].x <= s[j].x,
    ensures
        !is_shake(s, sensitivity_milli),
{
    lemma_monotone_no_changes(s, s.len() as int);
}

/// What a detector holds, as values.
pub struct ShakeView {
    pub samples: Seq<PositionSample>,
    pub sensitivity_milli: int,
    pub running: bool,
}

/// Detects quick back-and-forth pointer motion.
pub struct ShakeDetector {
    samples: VecDeque<PositionSample>,
    sensitivity_milli: u32,
    is_running: bool,
}

impl View for ShakeDetector {
    type V = ShakeView;

    closed spec fn view(&self) -> ShakeView {
        ShakeView {
            samples: self.samples@,
            sensitivity_milli: self.sensitivity_milli as int,
            running: self.is_running,
        }
    }
}

/// `v` clamped to `[0, 1000]`.
pub open spec fn clamp_milli(v: int) -> int {
    if v < 0 {
        0
    } else if v > 1000 {
        1000
    } else {
        v
    }
}

fn clamp_sensitivity(v: i64) -> (r: u32)
    ensures
        r == clamp_milli(v as int),
{
    if v < 0 {
        0
    } else if v > 1000 {
        1000
    } else {
        v as u32
    }
}

impl ShakeDetector {
    /// Well-formed: sensitivity within `[0, 1000]` thousandths, samples in time order.
    pub open spec fn wf(&self) -> bool {
        &&& 0 <= self@.sensitivity_milli <= 1000
        &&& time_ordered(self@.samples)
    }

    /// Whether a sample at `now_ms` may follow the ones held (time never runs back).
    pub open spec fn accepts_time(&self, now_ms: u64) -> bool {
        self@.samples.len() > 0 ==> self@.samples.last().time_ms <= now_ms
    }

    /// A stopped detector with an empty window; `sensitivity_milli` is clamped to `[0, 1000]`.
    pub fn new(sensitivity_milli: i64) -> (d: ShakeDetector)
        ensures
            d.wf(),
            d@.samples.len() == 0,
            d@.sensitivity_milli == clamp_milli(sensitivity_milli as int),
            !d@.running,
    {
        ShakeDetector {
            samples: VecDeque::with_capacity(100),
            sensitivity_milli: clamp_sensitivity(sensitivity_milli),
            is_running: false,
        }
    }

    /// Number of samples in the window.
    pub fn window_len(&self) -> (r: usize)
        ensures
            r == self@.samples.len(),
    {
        self.samples.len()
    }

    /// Sets the sensitivity, clamped to `[0, 1000]` thousandths.
    pub fn set_sensitivity(&mut self, sensitivity_milli: i64)
        requires
            old(self).wf(),
        ensures
            final(self).wf(),
            final(self)@ == (ShakeView { sensitivity_milli: clamp_milli(sensitivity_milli as int), ..old(self)@ }),
    {
        self.sensitivity_milli = clamp_sensitivity(sensitivity_milli);
    }

    pub fn sensitivity_milli(&self) -> (r: u32)
        ensures
            r == self@.sensitivity_milli,
    {
        self.sensitivity_milli
    }

    pub fn is_running(&self) -> (r: bool)
        ensures
            r == self@.running,
    {
        self.is_running
    }

    /// Starts monitoring with an empty window; does nothing when already running.
    pub fn start(&mut self)
        requires
            old(self).wf(),
        ensures
            final(self).wf(),
            final(self)@.running,
            final(self)@.sensitivity_milli == old(self)@.sensitivity_milli,
            old(self)@.running ==> final(self)@ == old(self)@,
            !old(self)@.running ==> final(self)@.samples.len() == 0,
    {
        if self.is_running {
            return;
        }
        self.is_running = true;
        self.samples.clear();
    }

    /// Whether the current window holds a shake.
    fn detect_shake(&self) -> (r: bool)
        requires
            self.wf(),
        ensures
            r == is_shake(self@.samples, self@.sensitivity_milli),
    {
        let n = self.samples.len();
        if n < 4 {
            return false;
        }
        let ghost s = self.samples@;
        let mut changes: usize = 0;
        let mut total: u128 = 0;
        let mut i: usize = 1;
        while i < n
            invariant
                1 <= i <= n,
                n == s.len(),
                s == self.samples@,
                changes == direction_changes(s, i as int),
                total == total_distance(s, i as int),
                changes <= i,
                total <= (i - 1) * 0x1_0000_0000,
            decreases n - i,
        {
            let prev = self.samples[i - 1];
            let curr = self.samples[i];
            let dx: i64 = curr.x as i64 - prev.x as i64;
            let dist: u64 = if dx < 0 {
                (-dx) as u64
            } else {
                dx as u64
            };
            total = total + dist as u128;
            if i >= 2 {
                let prev_dx: i64 = prev.x as i64 - self.samples[i - 2].x as i64;
                if (dx > 0 && prev_dx < 0) || (dx < 0 && prev_dx > 0) {
                    changes = changes + 1;
                }
            }
            i = i + 1;
        }
        let first = self.samples[0].time_ms;
        let last = self.samples[n - 1].time_ms;
        assert(first <= last);
        let span = last - first;
        if span == 0 {
            return false;
        }
        let sensitivity = self.sensitivity_milli as u128;
        assert(sensitivity <= 1000);
        let threshold = 900_000u128 - sensitivity * 600;
        assert(threshold == threshold_milli(self@.sensitivity_milli));
        assert(total * 1000 * 1000 <= 0x1_0000_0000_0000_0000 * 0x1_0000_0000 * 1000 * 1000)
            by (nonlinear_arith)
            requires
                total <= (i - 1) * 0x1_0000_0000,
                i <= 0x1_0000_0000_0000_0000,
        ;
        assert(threshold * span <= 900_000 * 0x1_0000_0000_0000_0000) by (nonlinear_arith)
            requires
                threshold <= 900_000,
                span <= 0x1_0000_0000_0000_0000,
        ;
        changes >= MIN_DIRECTION_CHANGES && total * 1000 * 1000 > threshold * (span as u128)
    }

    /// Records the pointer at (`x`, `y`) seen at `now_ms`, drops samples more than
    /// the window's length old, and tells whether a shake is newly detected.
    /// A detection empties the window. A stopped detector ignores the call.
    pub fn record_position(&mut self, x: i32, y: i32, now_ms: u64) -> (detected: bool)
        requires
            old(self).wf(),
            old(self).accepts_time(now_ms),
        ensures
            final(self).wf(),
            !old(self)@.running ==> !detected && final(self)@ == old(self)@,
            old(self)@.running ==> ({
                let w = evict(
                    old(self)@.samples.push(PositionSample { x, y, time_ms: now_ms }),
                    now_ms as int,
                );
                &&& detected == is_shake(w, old(self)@.sensitivity_milli)
                &&& final(self)@.samples == if detected {
                    Seq::<PositionSample>::empty()
                } else {
                    w
                }
                &&& forall|i: int| 0 <= i < w.len() ==> now_ms - #[trigger] w[i].time_ms <= WINDOW_MS
            }),
            final(self)@.running == old(self)@.running,
            final(self)@.sensitivity_milli == old(self)@.sensitivity_milli,
    {
        if !self.is_running {
            return false;
        }
        let sample = PositionSample { x, y, time_ms: now_ms };
        let ghost pushed = self.samples@.push(sample);
        self.samples.push_back(sample);
        assert(time_ordered(pushed)) by {
            assert forall|i: int, j: int| 0 <= i <= j < pushed.len() implies pushed[i].time_ms
                <= pushed[j].time_ms by {
                if j == pushed.len() - 1 && i < j {
                    assert(pushed[i] == old(self)@.samples[i]);
                }
            }
        }
        proof {
            lemma_evict_keeps_recent(pushed, now_ms as int);
        }
        loop
            invariant
                self.samples@.len() > 0,
                time_ordered(self.samples@),
                self.samples@.last().time_ms == now_ms,
                evict(self.samples@, now_ms as int) == evict(pushed, now_ms as int),
                self.sensitivity_milli == old(self).sensitivity_milli,
                self.is_running,
            ensures
                self.samples@ == evict(pushed, now_ms as int),
                self.sensitivity_milli == old(self).sensitivity_milli,
                self.is_running,
            decreases self.samples@.len(),
        {
            let front = self.samples[0];
            if now_ms - front.time_ms > WINDOW_MS {
                let ghost before = self.samples@;
                self.samples.pop_front();
                assert(self.samples@ == before.drop_first());
                assert(time_ordered(self.samples@)) by {
                    assert forall|i: int, j: int| 0 <= i <= j < self.samples@.len() implies self.samples@[i].time_ms
                        <= self.samples@[j].time_ms by {
                        assert(self.samples@[i] == before[i + 1]);
                        assert(self.samples@[j] == before[j + 1]);
                    }
                }
            } else {
                break;
            }
        }
        if self.detect_shake() {
            self.samples.clear();
            return true;
        }
        false
    }

    /// Stops monitoring and empties the window.
    pub fn stop(&mut self)
        requires
            old(self).wf(),
        ensures
            final(self).wf(),
            !final(self)@.running,
            final(self)@.samples.len() == 0,
            final(self)@.sensitivity_milli == old(self)@.sensitivity_milli,
    {
        self.is_running = false;
        self.samples.clear();
    }
}

impl Default for ShakeDetector {
    /// A stopped detector at middle sensitivity.
    fn default() -> (d: ShakeDetector)
        ensures
            d.wf(),
            d@.samples.len() == 0,
            d@.sensitivity_milli == 500,
            !d@.running,
    {
        ShakeDetector::new(500)
    }
}

} // verus!
