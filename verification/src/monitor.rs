//! The monitor: rolling rates from the shared pass counter.
//!
//! At fixed intervals the monitor reads the counter and the clock and turns
//! the change since its last reading into two rates: passes per second, and
//! bytes per second in hundredths of a GiB. It keeps no history beyond its
//! last reading. Rates are whole numbers, rounded down, and stop at the
//! largest `u64`.

use crate::arith::{lemma_cancel_common_factor, lemma_scaled_div};
use crate::counter::SharedCounter;
use vstd::prelude::*;

verus! {

/// Seconds between two reports.
pub const REPORT_INTERVAL_SECS: u64 = 3;

/// Nanoseconds in a second: the clock's unit turned into the rates' unit.
pub const NANOS_PER_SEC: u64 = 1_000_000_000;

/// Bytes in a GiB.
pub const BYTES_PER_GIB: u64 = 1024 * 1024 * 1024;

/// One reading: the counter's value and the time at which it was read, in
/// nanoseconds on a clock of the caller's choosing.
#[derive(Clone, Copy, Debug, PartialEq, Eq, Structural)]
pub struct MonitorSample {
    pub count: u64,
    pub timestamp: u64,
}

/// The figures of one report.
#[derive(Clone, Copy, Debug, PartialEq, Eq, Structural)]
pub struct Throughput {
    /// Passes finished since the run began.
    pub total_writes: u64,
    /// Passes per second over the last interval.
    pub writes_per_sec: u64,
    /// Bytes per second over the last interval, in hundredths of a GiB.
    pub centi_gib_per_sec: u64,
}

/// `x`, or the largest `u64` if `x` is larger.
pub open spec fn saturate(x: int) -> int {
    if x > u64::MAX {
        u64::MAX as int
    } else {
        x
    }
}

/// Passes per second: `delta` passes in `elapsed` nanoseconds.
pub open spec fn writes_per_sec(delta: int, elapsed: int) -> int {
    (delta * NANOS_PER_SEC) / elapsed
}

/// Hundredths of a GiB per second: `delta` passes of `source_size` bytes in
/// `elapsed` nanoseconds.
pub open spec fn centi_gib_per_sec(delta: int, source_size: int, elapsed: int) -> int {
    (delta * source_size * (100 * NANOS_PER_SEC)) / (elapsed * BYTES_PER_GIB)
}

/// The report for `delta` passes in `elapsed` nanoseconds, after `total`
/// passes in all.
pub open spec fn rates(total: u64, delta: int, source_size: int, elapsed: int) -> Throughput {
    Throughput {
        total_writes: total,
        writes_per_sec: saturate(writes_per_sec(delta, elapsed)) as u64,
        centi_gib_per_sec: saturate(centi_gib_per_sec(delta, source_size, elapsed)) as u64,
    }
}

/// Computes the figures of a report from the change over one interval.
pub fn throughput(total: u64, delta: u64, source_size: usize, elapsed: u64) -> (report: Throughput)
    requires
        elapsed > 0,
    ensures
        report == rates(total, delta as int, source_size as int, elapsed as int),
{
    assert(delta * NANOS_PER_SEC <= u128::MAX) by (nonlinear_arith)
        requires
            delta <= u64::MAX,
            NANOS_PER_SEC == 1_000_000_000,
    ;
    let per_sec: u128 = (delta as u128 * NANOS_PER_SEC as u128) / (elapsed as u128);
    let writes: u64 = if per_sec > u64::MAX as u128 {
        u64::MAX
    } else {
        per_sec as u64
    };
    // 100 * 10^9 / 2^30 in lowest terms is 5^11 / 2^19, which keeps every
    // product below within 128 bits.
    let scale: u128 = 48828125;
    let unit: u128 = 524288;
    assert(delta as u128 * source_size as u128 <= u128::MAX) by (nonlinear_arith)
        requires
            delta <= u64::MAX,
            source_size <= u64::MAX,
    ;
    let bytes: u128 = delta as u128 * source_size as u128;
    let denominator: u128 = elapsed as u128 * unit;
    let whole: u128 = bytes / denominator;
    let rest: u128 = bytes % denominator;
    proof {
        let common: int = 2048;
        assert(100 * NANOS_PER_SEC == scale * common);
        assert(BYTES_PER_GIB == unit * common);
        assert((bytes * (100 * NANOS_PER_SEC)) == (bytes * scale) * common && elapsed
            * BYTES_PER_GIB == denominator * common) by (nonlinear_arith)
            requires
                100 * NANOS_PER_SEC == scale * common,
                BYTES_PER_GIB == unit * common,
                denominator == elapsed * unit,
        ;
        assert(bytes * scale >= 0) by (nonlinear_arith)
            requires
                bytes >= 0,
                scale >= 0,
        ;
        lemma_cancel_common_factor(common, bytes * scale, denominator as int);
        lemma_scaled_div(bytes as int, scale as int, denominator as int);
        assert(centi_gib_per_sec(delta as int, source_size as int, elapsed as int) == whole * scale
            + (rest * scale) / (denominator as int));
        assert(whole * scale >= whole) by (nonlinear_arith)
            requires
                whole >= 0,
                scale >= 1,
        ;
    }
    let centi: u64 = if whole > u64::MAX as u128 {
        u64::MAX
    } else {
        assert(whole * scale <= u64::MAX * scale && rest * scale <= denominator * scale
            && denominator * scale <= u64::MAX * unit * scale) by (nonlinear_arith)
            requires
                whole <= u64::MAX,
                rest < denominator,
                denominator == elapsed * unit,
                elapsed <= u64::MAX,
                scale == 48828125,
                unit == 524288,
        ;
        let exact: u128 = whole * scale + (rest * scale) / denominator;
        if exact > u64::MAX as u128 {
            u64::MAX
        } else {
            exact as u64
        }
    };
    Throughput { total_writes: total, writes_per_sec: writes, centi_gib_per_sec: centi }
}

/// The monitor's state: the size of the source and the last reading.
pub struct MetricsMonitor {
    source_size: usize,
    previous: MonitorSample,
}

impl MetricsMonitor {
    /// Size of the source in bytes: what one pass writes.
    pub closed spec fn spec_source_size(&self) -> usize {
        self.source_size
    }

    /// The last reading that led to a report, or the starting point.
    pub closed spec fn spec_previous(&self) -> MonitorSample {
        self.previous
    }

    /// Whether a reading leads to a report: the clock has moved on since the
    /// last one.
    pub open spec fn reports(&self, now: u64) -> bool {
        now > self.spec_previous().timestamp
    }

    /// The report for a reading of `count` at `now`.
    pub open spec fn report_for(&self, count: u64, now: u64) -> Throughput {
        rates(
            count,
            count - self.spec_previous().count,
            self.spec_source_size() as int,
            now - self.spec_previous().timestamp,
        )
    }

    /// A monitor for a source of `source_size` bytes that starts at `now`
    /// with no pass counted.
    pub fn new(source_size: usize, now: u64) -> (monitor: MetricsMonitor)
        ensures
            monitor.spec_source_size() == source_size,
            monitor.spec_previous() == (MonitorSample { count: 0, timestamp: now }),
    {
        MetricsMonitor { source_size, previous: MonitorSample { count: 0, timestamp: now } }
    }

    /// Size of the source in bytes.
    #[verifier::when_used_as_spec(spec_source_size)]
    pub fn source_size(&self) -> (size: usize)
        ensures
            size == self.spec_source_size(),
    {
        self.source_size
    }

    /// The last reading that led to a report, or the starting point.
    #[verifier::when_used_as_spec(spec_previous)]
    pub fn previous(&self) -> (sample: MonitorSample)
        ensures
            sample == self.spec_previous(),
    {
        self.previous
    }

    /// Takes a reading of `count` at `now`. If the clock has not moved on
    /// since the last reading, nothing is reported and nothing changes.
    /// Otherwise the rates over the interval are reported and the reading
    /// becomes the last one.
    pub fn sample(&mut self, count: u64, now: u64) -> (report: Option<Throughput>)
        requires
            count >= old(self).spec_previous().count,
        ensures
            final(self).spec_source_size() == old(self).spec_source_size(),
            !old(self).reports(now) ==> report.is_none() && *final(self) == *old(self),
            old(self).reports(now) ==> report == Some(old(self).report_for(count, now))
                && final(self).spec_previous() == (MonitorSample { count, timestamp: now }),
    {
        if now <= self.previous.timestamp {
            return None;
        }
        let elapsed = now - self.previous.timestamp;
        let delta = count - self.previous.count;
        let report = throughput(count, delta, self.source_size, elapsed);
        self.previous = MonitorSample { count, timestamp: now };
        Some(report)
    }

    /// Reads the shared counter and takes the reading at `now`.
    ///
    /// Whatever the counter holds: a count below the last reading is not
    /// taken, and leaves the monitor as it was; any other is handed to
    /// `sample`. So a monitor that has counted nothing yet reports whenever
    /// the clock has moved on, and the monitor's own count and clock never
    /// go back.
    pub fn poll(&mut self, counter: &SharedCounter, now: u64) -> (report: Option<Throughput>)
        ensures
            final(self).spec_source_size() == old(self).spec_source_size(),
            final(self).spec_previous().count >= old(self).spec_previous().count,
            final(self).spec_previous().timestamp >= old(self).spec_previous().timestamp,
            !old(self).reports(now) ==> report.is_none(),
            old(self).reports(now) && old(self).spec_previous().count == 0 ==> report.is_some(),
            report.is_none() ==> *final(self) == *old(self),
            report matches Some(r) ==> old(self).reports(now) && r.total_writes >= old(
                self,
            ).spec_previous().count && r == old(self).report_for(r.total_writes, now)
                && final(self).spec_previous() == (MonitorSample {
                count: r.total_writes,
                timestamp: now,
            }),
    {
        let count = counter.load();
        if count < self.previous.count {
            None
        } else {
            self.sample(count, now)
        }
    }
}

/// While no pass is finished, both rates are zero, however long the
/// interval and whatever the size of the source.
pub proof fn lemma_idle_rates_are_zero(total: u64, source_size: int, elapsed: int)
    requires
        elapsed > 0,
        source_size >= 0,
    ensures
        rates(total, 0, source_size, elapsed) == (Throughput {
            total_writes: total,
            writes_per_sec: 0,
            centi_gib_per_sec: 0,
        }),
{
    assert(0 * NANOS_PER_SEC == 0 && 0 * source_size * (100 * NANOS_PER_SEC) == 0
        && elapsed * BYTES_PER_GIB > 0) by (nonlinear_arith)
        requires
            elapsed > 0,
    ;
    vstd::arithmetic::div_mod::lemma_div_of0(elapsed);
    vstd::arithmetic::div_mod::lemma_div_of0(elapsed * BYTES_PER_GIB);
}

} // verus!
