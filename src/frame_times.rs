//! A bounded rolling window of recent frame samples, each a time stamp and a
//! frame duration in nanoseconds, from which the average frame time and the
//! frame rate are reported.
use std::collections::VecDeque;
use vstd::prelude::*;

verus! {

/// Nanoseconds per second.
pub const NANOS_PER_SECOND: u64 = 1_000_000_000;

/// Thousandths of a frame per second, times nanoseconds per frame: a mean
/// frame interval of `d` nanoseconds is `MILLI_FPS_NANOS / d` thousandths of
/// a frame per second.
pub const MILLI_FPS_NANOS: u64 = 1_000_000_000_000;

/// One sample: the time it was taken and the frame duration it records.
pub type Sample = (u64, u64);

/// What remains of `s` after dropping samples from its front while there are
/// more than `max_len`, or while the front one is older than `max_age` at
/// time `now`.
pub open spec fn retained(s: Seq<Sample>, max_len: nat, max_age: nat, now: int) -> Seq<Sample>
    decreases s.len(),
{
    if s.len() > 0 && (s.len() > max_len || s[0].0 + max_age < now) {
        retained(s.drop_first(), max_len, max_age, now)
    } else {
        s
    }
}

/// The sum of the durations in `s`.
pub open spec fn duration_sum(s: Seq<Sample>) -> int
    decreases s.len(),
{
    if s.len() == 0 {
        0
    } else {
        duration_sum(s.drop_last()) + s.last().1
    }
}

/// The mean duration, rounded down; zero for no samples.
pub open spec fn average_of(s: Seq<Sample>) -> int {
    if s.len() == 0 {
        0
    } else {
        duration_sum(s) / (s.len() as int)
    }
}

/// The mean interval between the first and the last sample's time, rounded
/// down; none for fewer than two samples, or where time went backwards.
pub open spec fn mean_interval_of(s: Seq<Sample>) -> Option<int> {
    if s.len() >= 2 && s[0].0 <= s.last().0 {
        Some((s.last().0 - s[0].0) / (s.len() - 1))
    } else {
        None
    }
}

/// The reciprocal of the mean interval, in thousandths of a frame per
/// second; zero where there is no mean interval or it is zero.
pub open spec fn fps_milli_of(s: Seq<Sample>) -> int {
    match mean_interval_of(s) {
        Some(d) => if d > 0 {
            (MILLI_FPS_NANOS as int) / d
        } else {
            0
        },
        None => 0,
    }
}

proof fn lemma_retained_suffix(s: Seq<Sample>, max_len: nat, max_age: nat, now: int)
    ensures
        retained(s, max_len, max_age, now).len() <= max_len,
        retained(s, max_len, max_age, now).len() <= s.len(),
    decreases s.len(),
{
    if s.len() > 0 && (s.len() > max_len || s[0].0 + max_age < now) {
        lemma_retained_suffix(s.drop_first(), max_len, max_age, now);
    }
}

proof fn lemma_duration_sum_bound(s: Seq<Sample>)
    ensures
        0 <= duration_sum(s) <= s.len() * (u64::MAX as int),
    decreases s.len(),
{
    if s.len() > 0 {
        lemma_duration_sum_bound(s.drop_last());
        assert(s.len() * (u64::MAX as int) == (s.len() - 1) * (u64::MAX as int) + u64::MAX)
            by (nonlinear_arith);
    }
}

/// A rolling window of frame samples, holding at most `max_len` of them and
/// none older than `max_age` nanoseconds before the latest addition.
pub struct FrameTimes {
    max_len: usize,
    max_age: u64,
    samples: VecDeque<Sample>,
}

impl View for FrameTimes {
    type V = Seq<Sample>;

    closed spec fn view(&self) -> Seq<Sample> {
        self.samples@
    }
}

impl FrameTimes {
    /// The most samples the window keeps.
    pub closed spec fn max_len(&self) -> nat {
        self.max_len as nat
    }

    /// The age in nanoseconds beyond which a sample leaves the window.
    pub closed spec fn max_age(&self) -> nat {
        self.max_age as nat
    }

    /// The window never holds more than its bound.
    pub open spec fn wf(&self) -> bool {
        self@.len() <= self.max_len()
    }

    /// An empty window with the given bounds.
    pub fn new(max_len: usize, max_age: u64) -> (r: FrameTimes)
        ensures
            r@ == Seq::<Sample>::empty(),
            r.max_len() == max_len,
            r.max_age() == max_age,
            r.wf(),
    {
        FrameTimes { max_len, max_age, samples: VecDeque::new() }
    }

    /// The number of samples held.
    pub fn len(&self) -> (r: usize)
        ensures
            r == self@.len(),
    {
        self.samples.len()
    }

    /// Whether no sample is held.
    pub fn is_empty(&self) -> (r: bool)
        ensures
            r == (self@.len() == 0),
    {
        self.samples.len() == 0
    }

    /// Records a frame of `duration` nanoseconds at time `now`, then drops
    /// the samples that exceed the window's bounds.
    pub fn add(&mut self, now: u64, duration: u64)
        ensures
            final(self)@ == retained(
                old(self)@.push((now, duration)),
                old(self).max_len(),
                old(self).max_age(),
                now as int,
            ),
            final(self).max_len() == old(self).max_len(),
            final(self).max_age() == old(self).max_age(),
            final(self).wf(),
    {
        self.samples.push_back((now, duration));
        let ghost target = retained(self.samples@, self.max_len as nat, self.max_age as nat, now as int);
        loop
            invariant
                retained(self.samples@, self.max_len as nat, self.max_age as nat, now as int) == target,
                self.max_len == old(self).max_len,
                self.max_age == old(self).max_age,
            ensures
                self.samples@ == target,
                self.max_len == old(self).max_len,
                self.max_age == old(self).max_age,
            decreases self.samples@.len(),
        {
            let n = self.samples.len();
            if n == 0 {
                break;
            }
            let front_time = self.samples[0].0;
            let stale = (front_time as u128) + (self.max_age as u128) < now as u128;
            if n > self.max_len || stale {
                let ghost before = self.samples@;
                self.samples.pop_front();
                assert(self.samples@ == before.drop_first());
            } else {
                break;
            }
        }
        proof {
            lemma_retained_suffix(
                old(self)@.push((now, duration)),
                self.max_len as nat,
                self.max_age as nat,
                now as int,
            );
        }
    }

    /// The mean frame duration in nanoseconds, rounded down; none for an
    /// empty window.
    pub fn average(&self) -> (r: Option<u64>)
        ensures
            self@.len() == 0 ==> r is None,
            self@.len() > 0 ==> r == Some(average_of(self@) as u64),
            0 <= average_of(self@) <= u64::MAX,
    {
        let n = self.samples.len();
        if n == 0 {
            return None;
        }
        let mut sum: u128 = 0;
        let mut i: usize = 0;
        while i < n
            invariant
                n == self@.len(),
                i <= n,
                sum == duration_sum(self@.take(i as int)),
            decreases n - i,
        {
            proof {
                lemma_duration_sum_bound(self@.take(i as int));
                assert(self@.take(i as int + 1).drop_last() == self@.take(i as int));
                assert((i as int) * (u64::MAX as int) <= (usize::MAX as int) * (u64::MAX as int))
                    by (nonlinear_arith)
                    requires i <= usize::MAX;
            }
            sum = sum + self.samples[i].1 as u128;
            i = i + 1;
        }
        proof {
            assert(self@.take(n as int) == self@);
            lemma_duration_sum_bound(self@);
            assert(duration_sum(self@) / (n as int) <= u64::MAX) by (nonlinear_arith)
                requires
                    0 <= duration_sum(self@) <= (n as int) * (u64::MAX as int),
                    n > 0,
            ;
        }
        Some((sum / (n as u128)) as u64)
    }

    /// The mean interval in nanoseconds between the first and the last
    /// sample, rounded down; none for fewer than two samples, or where the
    /// last sample is older than the first.
    pub fn mean_time_interval(&self) -> (r: Option<u64>)
        ensures
            r matches Some(d) ==> mean_interval_of(self@) == Some(d as int),
            r is None ==> mean_interval_of(self@) is None,
    {
        let n = self.samples.len();
        if n < 2 {
            return None;
        }
        let first = self.samples[0].0;
        let last = self.samples[n - 1].0;
        if last < first {
            return None;
        }
        Some((last - first) / ((n - 1) as u64))
    }
}

} // verus!
