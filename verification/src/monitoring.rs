//! Performance counters, the windows that bound recorded samples, and facts
//! about the host system.

use vstd::prelude::*;
use crate::keyed::{unique_keys, key_map, lemma_key_at, lemma_key_update, lemma_key_push, find_key};

verus! {

/// `x + y` as a `u64` adds it: the sum wraps around past `u64::MAX`, so that
/// adding `u64::MAX` takes one away.
pub open spec fn wrapped_sum(x: u64, y: u64) -> u64 {
    if x + y > u64::MAX {
        (x + y - 0x1_0000_0000_0000_0000) as u64
    } else {
        (x + y) as u64
    }
}

/// The value of the counter `name`; a counter never touched counts 0.
pub open spec fn count_of(c: Map<Seq<char>, u64>, name: Seq<char>) -> u64 {
    if c.contains_key(name) { c[name] } else { 0 }
}

/// The counters after `value` is added to the counter `name`.
pub open spec fn bumped(c: Map<Seq<char>, u64>, name: Seq<char>, value: u64) -> Map<Seq<char>, u64> {
    c.insert(name, wrapped_sum(count_of(c, name), value))
}

/// The counters after a request starts: one more in all, one more active.
pub open spec fn started(c: Map<Seq<char>, u64>) -> Map<Seq<char>, u64> {
    bumped(bumped(c, "requests_total"@, 1), "active_requests"@, 1)
}

/// The counters after a request ends: one active request less, and one more
/// successful or failed one.
pub open spec fn ended(c: Map<Seq<char>, u64>, success: bool) -> Map<Seq<char>, u64> {
    let a = bumped(c, "active_requests"@, u64::MAX);
    if success {
        bumped(a, "requests_successful"@, 1)
    } else {
        bumped(a, "requests_failed"@, 1)
    }
}

/// Named counters of the requests served.
pub struct PerformanceMonitor {
    counters: Vec<(String, u64)>,
}

impl PerformanceMonitor {
    /// No counter is listed twice.
    pub closed spec fn well_formed(&self) -> bool {
        unique_keys(self.counters@)
    }

    /// The counters by name.
    pub closed spec fn counts(&self) -> Map<Seq<char>, u64> {
        key_map(self.counters@)
    }

    /// A monitor with no counter set.
    pub fn new() -> (m: PerformanceMonitor)
        ensures
            m.well_formed(),
            m.counts() == Map::<Seq<char>, u64>::empty(),
    {
        let m = PerformanceMonitor { counters: Vec::new() };
        assert(m.counts() =~= Map::<Seq<char>, u64>::empty());
        m
    }

    /// Adds `value` to the counter `name`, wrapping around past `u64::MAX`.
    pub fn increment_counter(&mut self, name: &str, value: u64)
        requires
            old(self).well_formed(),
        ensures
            final(self).well_formed(),
            final(self).counts() == bumped(old(self).counts(), name@, value),
    {
        let ghost before = self.counters@;
        match find_key(&self.counters, name) {
            Some(i) => {
                proof { lemma_key_at(before, i as int); }
                let sum = self.counters[i].1.wrapping_add(value);
                let item = (String::from_str(name), sum);
                proof { lemma_key_update(before, i as int, item); }
                self.counters.set(i, item);
            },
            None => {
                let item = (String::from_str(name), value);
                proof { lemma_key_push(before, item); }
                self.counters.push(item);
            },
        }
    }

    /// The value of the counter `name`, 0 for one never touched.
    pub fn get_counter(&self, name: &str) -> (v: u64)
        requires
            self.well_formed(),
        ensures
            v == count_of(self.counts(), name@),
    {
        match find_key(&self.counters, name) {
            Some(i) => {
                proof { lemma_key_at(self.counters@, i as int); }
                self.counters[i].1
            },
            None => 0,
        }
    }

    /// Counts a request that starts.
    pub fn record_request_start(&mut self)
        requires
            old(self).well_formed(),
        ensures
            final(self).well_formed(),
            final(self).counts() == started(old(self).counts()),
    {
        self.increment_counter("requests_total", 1);
        self.increment_counter("active_requests", 1);
    }

    /// Counts a request that ends, successfully or not.
    pub fn record_request_end(&mut self, success: bool)
        requires
            old(self).well_formed(),
        ensures
            final(self).well_formed(),
            final(self).counts() == ended(old(self).counts(), success),
    {
        self.increment_counter("active_requests", u64::MAX);
        if success {
            self.increment_counter("requests_successful", 1);
        } else {
            self.increment_counter("requests_failed", 1);
        }
    }
}

/// The last `limit` items of `s`, or all of them where there are fewer.
pub open spec fn last_items<T>(s: Seq<T>, limit: nat) -> Seq<T> {
    if s.len() > limit { s.subrange(s.len() - limit, s.len() as int) } else { s }
}

/// Appends `value` to `values` and keeps only the last `limit` of them.
pub fn push_bounded<T>(values: &mut Vec<T>, value: T, limit: usize)
    ensures
        final(values)@ == last_items(old(values)@.push(value), limit as nat),
{
    values.push(value);
    let n = values.len();
    if n > limit {
        let kept = values.split_off(n - limit);
        *values = kept;
    }
}

/// The points of a series recorded at `cutoff` or later.
pub open spec fn points_since<T>(s: Seq<(u64, T)>, cutoff: u64) -> Seq<(u64, T)> {
    s.filter(|p: (u64, T)| p.0 >= cutoff)
}

/// How long a series keeps its points, in seconds: a day.
pub const SERIES_SPAN_SECS: u64 = 86400;

/// The oldest time a series keeps after a point at `timestamp`.
pub open spec fn series_cutoff(timestamp: u64) -> u64 {
    if timestamp >= SERIES_SPAN_SECS { (timestamp - SERIES_SPAN_SECS) as u64 } else { 0 }
}

/// Keeps the points of `series` recorded at `cutoff` or later, in order.
pub fn retain_since<T>(series: &mut Vec<(u64, T)>, cutoff: u64)
    ensures
        final(series)@ == points_since(old(series)@, cutoff),
{
    let ghost orig = series@;
    let mut rest: Vec<(u64, T)> = Vec::new();
    std::mem::swap(&mut rest, series);
    let mut reversed: Vec<(u64, T)> = Vec::new();
    while rest.len() > 0
        invariant
            rest@ == orig.take(rest@.len() as int),
            rest@.len() + reversed@.len() == orig.len(),
            forall|k: int| 0 <= k < reversed@.len() ==> #[trigger] reversed@[k] == orig[orig.len() - 1 - k],
        decreases rest.len(),
    {
        let p = rest.pop().unwrap();
        reversed.push(p);
    }
    let mut kept: Vec<(u64, T)> = Vec::new();
    while reversed.len() > 0
        invariant
            reversed@.len() <= orig.len(),
            forall|k: int| 0 <= k < reversed@.len() ==> #[trigger] reversed@[k] == orig[orig.len() - 1 - k],
            kept@ == points_since(orig.take(orig.len() - reversed@.len()), cutoff),
        decreases reversed.len(),
    {
        let ghost i = orig.len() - reversed@.len();
        let p = reversed.pop().unwrap();
        proof {
            assert(orig.take(i + 1).drop_last() =~= orig.take(i));
            assert(orig.take(i + 1).last() == orig[i]);
            reveal(Seq::filter);
        }
        if p.0 >= cutoff {
            kept.push(p);
        }
    }
    assert(orig.take(orig.len() as int) =~= orig);
    *series = kept;
}

/// Adds the point `(timestamp, value)` to `series` and drops the points more
/// than a day older than it.
pub fn record_point<T>(series: &mut Vec<(u64, T)>, timestamp: u64, value: T)
    ensures
        final(series)@ == points_since(old(series)@.push((timestamp, value)), series_cutoff(timestamp)),
{
    series.push((timestamp, value));
    retain_since(series, timestamp.saturating_sub(SERIES_SPAN_SECS));
}

/// A request that starts and then ends leaves the number of active requests
/// as it was, and adds one to the total and to the successful or the failed
/// requests.
pub proof fn law_request_round_trip(m: PerformanceMonitor, success: bool)
    requires
        m.well_formed(),
    ensures
        count_of(ended(started(m.counts()), success), "active_requests"@) == count_of(m.counts(), "active_requests"@),
        count_of(ended(started(m.counts()), success), "requests_total"@) == wrapped_sum(count_of(m.counts(), "requests_total"@), 1),
        success ==> count_of(ended(started(m.counts()), success), "requests_successful"@)
            == wrapped_sum(count_of(m.counts(), "requests_successful"@), 1),
        !success ==> count_of(ended(started(m.counts()), success), "requests_failed"@)
            == wrapped_sum(count_of(m.counts(), "requests_failed"@), 1),
{
    reveal_strlit("active_requests");
    reveal_strlit("requests_total");
    reveal_strlit("requests_successful");
    reveal_strlit("requests_failed");
    assert("active_requests"@ != "requests_total"@) by {
        assert("active_requests"@[0] != "requests_total"@[0]);
    }
    assert("active_requests"@ != "requests_successful"@) by {
        assert("active_requests"@[0] != "requests_successful"@[0]);
    }
    assert("active_requests"@ != "requests_failed"@) by {
        assert("active_requests"@[0] != "requests_failed"@[0]);
    }
    assert("requests_total"@ != "requests_successful"@) by {
        assert("requests_total"@[9] != "requests_successful"@[9]);
    }
    assert("requests_total"@ != "requests_failed"@) by {
        assert("requests_total"@[9] != "requests_failed"@[9]);
    }
}

/// 系统资源信息
#[derive(Debug, Clone)]
pub struct SystemInfo {
    /// 操作系统
    pub os: String,
    /// 架构
    pub arch: String,
    /// CPU 核心数
    pub cpu_cores: usize,
    /// 总内存（字节）
    pub total_memory_bytes: u64,
    /// Rust 版本
    pub rust_version: String,
    /// 应用版本
    pub app_version: String,
}

} // verus!
