//! Rolling IOPS and latency tracking over streaming histograms.
//!
//! Two histograms are kept: total latency (creation to consumption, i.e.
//! queueing plus execution) and execution latency (submission to
//! retirement). A rolling one-second counter yields the IOPS figure; the
//! clock is only consulted once enough completions have accumulated, to
//! keep clock-read overhead off the hot path.

use vstd::prelude::*;

use crate::op::Op;

verus! {

/// Minimum completions per rolling second before the clock is consulted.
pub const TICK_MIN_OPS: u64 = 1000;

/// Length of the rolling IOPS window, in nanoseconds.
pub const ROLL_NS: u64 = 1000000000;

/// Error of the metrics engine: a histogram could not be created or a
/// sample could not be recorded, or a completion came back without its
/// lifecycle timestamps.
#[derive(Debug, Clone, Copy, PartialEq, Eq, Structural)]
pub enum MetricsError {
    HistogramCreation,
    Record,
    MissingTimestamp,
}

/// A streaming latency histogram, held opaquely. The `hdrhistogram` crate's
/// generic histogram type cannot be declared to the verifier directly (its
/// counter type parameter carries an outside trait bound), so it lives in a
/// hidden field; the inner histogram is still reachable for display, where
/// its floating-point statistics are read.
#[verifier::external_body]
pub struct LatencyHistogram {
    pub inner: hdrhistogram::Histogram<u64>,
}

/// The total number of samples a histogram holds.
pub uninterp spec fn hist_count(h: LatencyHistogram) -> u64;

/// The histogram grows on demand: it was created auto-resizing, so a
/// record can always make room for its value.
pub uninterp spec fn hist_resizable(h: LatencyHistogram) -> bool;

/// Relies on hdrhistogram::Histogram::new: a fresh auto-resizing histogram
/// with no recorded values. The only creation error at these bounds is a
/// significant-figures count above five, so creation at five or fewer
/// always succeeds.
#[verifier::external_body]
fn hist_new(sigfig: u8) -> (r: Result<LatencyHistogram, MetricsError>)
    ensures
        sigfig <= 5 ==> r is Ok,
        r matches Ok(h) ==> hist_count(h) == 0 && hist_resizable(h),
{
    match hdrhistogram::Histogram::new(sigfig) {
        Ok(inner) => Ok(LatencyHistogram { inner }),
        Err(_) => Err(MetricsError::HistogramCreation),
    }
}

/// Relies on hdrhistogram::Histogram::record: files the value; on success
/// the total sample count grows by one, saturating at the counter's limit.
/// On an auto-resizing histogram the record can only fail where the
/// resized counts array cannot be addressed, and its length is a 32-bit
/// count, so on any target whose addresses cover 32 bits the record
/// succeeds.
#[verifier::external_body]
fn hist_record(h: &mut LatencyHistogram, v: u64) -> (r: Result<(), MetricsError>)
    ensures
        hist_resizable(*old(h)) && u32::MAX <= usize::MAX ==> r is Ok,
        hist_resizable(*final(h)) == hist_resizable(*old(h)),
        r is Ok ==> hist_count(*final(h)) == spec_sat_inc(hist_count(*old(h))),
        r is Err ==> hist_count(*final(h)) == hist_count(*old(h)),
{
    match h.inner.record(v) {
        Ok(()) => Ok(()),
        Err(_) => Err(MetricsError::Record),
    }
}

/// Relies on hdrhistogram::Histogram::len: the total number of recorded
/// samples.
#[verifier::external_body]
fn hist_len(h: &LatencyHistogram) -> (r: u64)
    ensures
        r == hist_count(*h),
{
    h.inner.len()
}

/// `x + 1`, saturating at the largest representable count.
pub open spec fn spec_sat_inc(x: u64) -> u64 {
    if x < u64::MAX {
        (x + 1) as u64
    } else {
        u64::MAX
    }
}

/// `a + b`, saturating at the largest representable count.
pub open spec fn spec_sat_add(a: u64, b: u64) -> u64 {
    if a + b <= u64::MAX {
        (a + b) as u64
    } else {
        u64::MAX
    }
}

/// `a - b`, floored at zero.
pub open spec fn spec_sat_sub(a: u64, b: u64) -> u64 {
    if a >= b {
        (a - b) as u64
    } else {
        0
    }
}

/// The rolling-second and latency statistics of a measurement run.
pub struct Metrics {
    second_start: u64,
    running_iops: u64,
    last_iops: u64,
    histogram_total: LatencyHistogram,
    histogram_completion: LatencyHistogram,
    /// The recorded samples, as (total latency, execution latency) pairs,
    /// in recording order.
    samples: Ghost<Seq<(u64, u64)>>,
}

impl Metrics {
    /// Both histograms grow on demand, as the constructor made them; a
    /// record into them then always succeeds.
    pub closed spec fn wf(self) -> bool {
        hist_resizable(self.histogram_total) && hist_resizable(self.histogram_completion)
    }

    /// The recorded samples, as (total latency, execution latency) pairs
    /// in nanoseconds, in recording order.
    pub closed spec fn spec_samples(self) -> Seq<(u64, u64)> {
        self.samples@
    }

    /// Completions counted in the current rolling second.
    pub closed spec fn spec_running(self) -> u64 {
        self.running_iops
    }

    /// Completions counted in the last full rolling second.
    pub closed spec fn spec_last(self) -> u64 {
        self.last_iops
    }

    /// Clock reading at which the current rolling second began.
    pub closed spec fn spec_second_start(self) -> u64 {
        self.second_start
    }

    /// Samples recorded in the total-latency histogram.
    pub closed spec fn spec_total_count(self) -> u64 {
        hist_count(self.histogram_total)
    }

    /// Samples recorded in the execution-latency histogram.
    pub closed spec fn spec_completion_count(self) -> u64 {
        hist_count(self.histogram_completion)
    }

    /// A fresh metrics engine with empty histograms, started at clock
    /// reading `now`. Creation always succeeds: the histograms are made at
    /// five significant digits, within the histogram crate's bounds.
    pub fn new(now: u64) -> (r: Result<Metrics, MetricsError>)
        ensures
            r is Ok,
            r matches Ok(m) ==> {
                &&& m.wf()
                &&& m.spec_running() == 0
                &&& m.spec_last() == 0
                &&& m.spec_second_start() == now
                &&& m.spec_total_count() == 0
                &&& m.spec_completion_count() == 0
                &&& m.spec_samples() == Seq::<(u64, u64)>::empty()
            },
    {
        let histogram_total = match hist_new(5) {
            Ok(h) => h,
            Err(e) => {
                proof {
                    assert(false);
                }
                return Err(e);
            },
        };
        let histogram_completion = match hist_new(5) {
            Ok(h) => h,
            Err(e) => {
                proof {
                    assert(false);
                }
                return Err(e);
            },
        };
        Ok(
            Metrics {
                second_start: now,
                running_iops: 0,
                last_iops: 0,
                histogram_total,
                histogram_completion,
                samples: Ghost(Seq::empty()),
            },
        )
    }

    /// The rolling second is rotated once enough completions have
    /// accumulated and at least the window length has elapsed.
    pub open spec fn spec_should_rotate(self, now: u64) -> bool {
        &&& self.spec_running() >= TICK_MIN_OPS
        &&& spec_sat_sub(now, self.spec_second_start()) >= ROLL_NS
    }

    /// Called every loop iteration. Rotates the rolling-second counter when
    /// due and says whether a report should be displayed.
    pub fn on_tick(&mut self, now: u64) -> (display: bool)
        ensures
            display == old(self).spec_should_rotate(now),
            display ==> {
                &&& final(self).spec_last() == old(self).spec_running()
                &&& final(self).spec_running() == 0
                &&& final(self).spec_second_start() == now
            },
            !display ==> *final(self) == *old(self),
            final(self).spec_total_count() == old(self).spec_total_count(),
            final(self).spec_completion_count() == old(self).spec_completion_count(),
            final(self).spec_samples() == old(self).spec_samples(),
            final(self).wf() == old(self).wf(),
    {
        if self.running_iops < TICK_MIN_OPS {
            return false;
        }
        let elapsed = if now >= self.second_start {
            now - self.second_start
        } else {
            0
        };
        if elapsed < ROLL_NS {
            return false;
        }
        self.second_start = now;
        self.last_iops = self.running_iops;
        self.running_iops = 0;
        true
    }

    /// Files a consumed completion: records its total latency (creation to
    /// now) and its execution latency (submission to retirement), both as
    /// saturating differences of the clock readings, and counts it toward
    /// the rolling second. A completion that came back without all three
    /// timestamps is refused and nothing is recorded; a fully stamped one
    /// is always recorded.
    pub fn on_op_complete(&mut self, op: &Op, now: u64) -> (r: Result<(), MetricsError>)
        requires
            old(self).wf(),
        ensures
            final(self).wf(),
            final(self).spec_last() == old(self).spec_last(),
            final(self).spec_second_start() == old(self).spec_second_start(),
            r is Ok <==> (op.created is Some && op.submitted is Some && op.retired is Some),
            r is Ok ==> {
                &&& final(self).spec_total_count() == spec_sat_inc(old(self).spec_total_count())
                &&& final(self).spec_completion_count() == spec_sat_inc(
                    old(self).spec_completion_count(),
                )
                &&& final(self).spec_running() == spec_sat_inc(old(self).spec_running())
                &&& (op.created matches Some(c) && op.submitted matches Some(sb)
                    && op.retired matches Some(rt) && final(self).spec_samples() == old(
                    self,
                ).spec_samples().push((spec_sat_sub(now, c), spec_sat_sub(rt, sb))))
            },
            r is Err ==> {
                &&& r == Err::<(), MetricsError>(MetricsError::MissingTimestamp)
                &&& *final(self) == *old(self)
            },
    {
        let created = match op.created {
            Some(t) => t,
            None => {
                return Err(MetricsError::MissingTimestamp);
            },
        };
        let submitted = match op.submitted {
            Some(t) => t,
            None => {
                return Err(MetricsError::MissingTimestamp);
            },
        };
        let retired = match op.retired {
            Some(t) => t,
            None => {
                return Err(MetricsError::MissingTimestamp);
            },
        };
        let total = if now >= created {
            now - created
        } else {
            0
        };
        let completion = if retired >= submitted {
            retired - submitted
        } else {
            0
        };
        match hist_record(&mut self.histogram_total, total) {
            Ok(()) => {},
            Err(e) => {
                proof {
                    assert(false);
                }
                return Err(e);
            },
        }
        match hist_record(&mut self.histogram_completion, completion) {
            Ok(()) => {},
            Err(e) => {
                proof {
                    assert(false);
                }
                return Err(e);
            },
        }
        self.running_iops = if self.running_iops < u64::MAX {
            self.running_iops + 1
        } else {
            u64::MAX
        };
        proof {
            self.samples@ = self.samples@.push((total, completion));
        }
        Ok(())
    }

    /// The number of samples recorded so far, as (total-latency count,
    /// execution-latency count).
    pub fn sample_counts(&self) -> (r: (u64, u64))
        ensures
            r.0 == self.spec_total_count(),
            r.1 == self.spec_completion_count(),
    {
        (hist_len(&self.histogram_total), hist_len(&self.histogram_completion))
    }

    /// The last full rolling second's completion count.
    pub fn last_iops(&self) -> (r: u64)
        ensures
            r == self.spec_last(),
    {
        self.last_iops
    }

    /// The total-latency histogram, for display.
    pub fn total_histogram(&self) -> (r: &LatencyHistogram)
        ensures
            hist_count(*r) == self.spec_total_count(),
    {
        &self.histogram_total
    }

    /// The execution-latency histogram, for display.
    pub fn completion_histogram(&self) -> (r: &LatencyHistogram)
        ensures
            hist_count(*r) == self.spec_completion_count(),
    {
        &self.histogram_completion
    }
}

} // verus!
