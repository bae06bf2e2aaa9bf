//! The two driving loops of a run: the layout phase, which writes payloads
//! to the chosen offsets, and the measurement phase, which cycles reads
//! over them while tracking latency.
//!
//! Both loops keep the engine's submission pipe full without ever
//! submitting into a saturated engine, and drain completions as they
//! arrive.

use vstd::prelude::*;

use crate::clock::clock_nanos;
use crate::engine::Backend;
use crate::junk::JunkBuf;
use crate::metrics::{spec_sat_add, Metrics, MetricsError};
use crate::op::Op;
use crate::pool::BufPool;

verus! {

/// A fatal error of a run.
#[derive(Debug)]
pub enum RunError {
    /// A completed request reported a negative result code.
    Io(i32),
    /// A channel to the workers hung up while work was outstanding.
    Disconnected,
    /// The metrics engine refused a sample or could not be created.
    Metrics(MetricsError),
    /// A completion carried correlation data naming no live buffer, or
    /// brought back a damaged buffer or one of the wrong length.
    BadCompletion,
    /// The buffer-pool handle space is exhausted.
    PoolExhausted,
}

/// Writes one payload block, sampled from `junk`, to every offset of
/// `offsets`, through the given engine, and drains every completion.
///
/// On success the engine has accepted exactly one write per offset, in
/// order, each carrying a payload of the configured block size, and no
/// request is left in flight. A completion with a negative result code
/// aborts the run with that code.
pub fn run_layout<B: Backend>(
    backend: &mut B,
    offsets: &Vec<u64>,
    junk: &JunkBuf,
    rng: &mut rand_pcg::Pcg64,
    origin: &std::time::Instant,
) -> (r: Result<(), RunError>)
    requires
        old(backend).wf(),
        old(backend).spec_inflight() == 0,
        old(backend).spec_cap() >= 1,
        junk.wf(),
    ensures
        final(backend).wf(),
        final(backend).spec_cap() == old(backend).spec_cap(),
        offsets@.len() == 0 ==> r is Ok,
        r matches Err(e) ==> (e matches RunError::Io(c) ==> c < 0),
        r is Ok ==> {
            &&& final(backend).spec_inflight() == 0
            &&& final(backend).spec_history().len() == old(backend).spec_history().len()
                + offsets@.len()
            &&& forall|k: int|
                0 <= k < offsets@.len() ==> {
                    let op = #[trigger] final(backend).spec_history()[old(
                        backend,
                    ).spec_history().len() + k];
                    op.ty is Write && op.ty.spec_at() == offsets@[k]
                        && op.ty.spec_buf().len() == junk.block_size()
                }
        },
{
    let ghost hist0 = backend.spec_history();
    let n = offsets.len();
    let mut next: usize = 0;
    let mut remaining: usize = n;
    proof {
        backend.wf_implies_bounded();
    }
    loop
        invariant
            backend.wf(),
            backend.spec_cap() == old(backend).spec_cap(),
            backend.spec_cap() >= 1,
            backend.spec_inflight() <= backend.spec_cap(),
            junk.wf(),
            n == offsets@.len(),
            next <= n,
            remaining <= n,
            n - remaining <= next,
            backend.spec_inflight() == next - (n - remaining),
            backend.spec_history().len() == hist0.len() + next,
            forall|k: int|
                0 <= k < next ==> {
                    let op = #[trigger] backend.spec_history()[hist0.len() + k];
                    op.ty is Write && op.ty.spec_at() == offsets@[k]
                        && op.ty.spec_buf().len() == junk.block_size()
                },
        ensures
            backend.wf(),
            remaining == 0,
            next == n,
            backend.spec_inflight() == 0,
            backend.spec_history().len() == hist0.len() + n,
            forall|k: int|
                0 <= k < n ==> {
                    let op = #[trigger] backend.spec_history()[hist0.len() + k];
                    op.ty is Write && op.ty.spec_at() == offsets@[k]
                        && op.ty.spec_buf().len() == junk.block_size()
                },
        decreases remaining,
    {
        loop
            invariant
                backend.wf(),
                backend.spec_cap() == old(backend).spec_cap(),
                backend.spec_cap() >= 1,
                backend.spec_inflight() <= backend.spec_cap(),
                junk.wf(),
                n == offsets@.len(),
                next <= n,
                remaining <= n,
                n - remaining <= next,
                backend.spec_inflight() == next - (n - remaining),
                backend.spec_history().len() == hist0.len() + next,
                forall|k: int|
                    0 <= k < next ==> {
                        let op = #[trigger] backend.spec_history()[hist0.len() + k];
                        op.ty is Write && op.ty.spec_at() == offsets@[k]
                            && op.ty.spec_buf().len() == junk.block_size()
                    },
            ensures
                next == n || backend.spec_inflight() == backend.spec_cap(),
            decreases n - next,
        {
            if next >= n {
                break;
            }
            if backend.is_full() {
                break;
            }
            let buf = junk.rand(rng);
            let now = clock_nanos(origin);
            let op = Op::write(buf, offsets[next], now);
            match backend.submit(op) {
                Ok(()) => {
                    next = next + 1;
                },
                Err(_) => {
                    return Err(RunError::Disconnected);
                },
            }
        }
        match backend.wait() {
            Ok(completed) => {
                match completed {
                    Some(op) => {
                        if op.result < 0 {
                            return Err(RunError::Io(op.result));
                        }
                        remaining = remaining - 1;
                    },
                    None => {
                        proof {
                            assert(next == n);
                            assert(remaining == 0);
                        }
                        break;
                    },
                }
            },
            Err(_) => {
                return Err(RunError::Disconnected);
            },
        }
    }
    Ok(())
}

/// What a measurement run did: how many completions it consumed, how many
/// of them were recorded after ramp-up, and the rolling-second IOPS
/// figures that became due along the way.
#[derive(Debug)]
pub struct MeasureSummary {
    pub completions: u64,
    pub recorded: u64,
    pub iops_reports: Vec<u64>,
}

/// Every request the measurement loop has submitted beyond `base` is a
/// read cycling round-robin over the populated offsets — the `k`-th
/// submitted read targets `offsets[k mod offsets.len()]` — with a
/// pool-sized buffer, correlated by a handle the pool has minted.
pub open spec fn reads_cycle_offsets(
    hist: Seq<Op>,
    base: int,
    offsets: Seq<u64>,
    bs: usize,
    slots: usize,
) -> bool {
    &&& hist.len() >= base
    &&& forall|k: int|
        base <= k < hist.len() ==> {
            let op = #[trigger] hist[k];
            &&& op.ty is Read
            &&& op.ty.spec_at() == offsets[(k - base) % (offsets.len() as int)]
            &&& op.ty.spec_buf().len() == bs
            &&& op.user_data < slots
        }
}

/// Cycles read requests round-robin over the populated offsets until
/// `max_completions` completions have been consumed, checking buffers out
/// of the pool on submission and releasing them on consumption, and
/// recording latency for every completion consumed after the ramp-up
/// window.
///
/// Completions consumed while `clock < ramp_ns` execute real I/O but are
/// excluded from the recorded statistics; with no ramp window, every
/// consumed completion is recorded.
pub fn run_measure<B: Backend>(
    backend: &mut B,
    offsets: &Vec<u64>,
    pool: &mut BufPool,
    metrics: &mut Metrics,
    origin: &std::time::Instant,
    ramp_ns: u64,
    max_completions: u64,
) -> (r: Result<MeasureSummary, RunError>)
    requires
        old(backend).wf(),
        old(backend).spec_cap() >= 1,
        old(pool).wf(),
        old(metrics).wf(),
        offsets@.len() > 0,
    ensures
        final(backend).wf(),
        final(backend).spec_cap() == old(backend).spec_cap(),
        final(pool).wf(),
        final(pool).block_size() == old(pool).block_size(),
        final(metrics).wf(),
        max_completions == 0 ==> r is Ok,
        r matches Err(e) ==> {
            &&& (e matches RunError::Io(c) ==> c < 0)
            &&& (e matches RunError::Metrics(m) ==> m == MetricsError::MissingTimestamp)
        },
        r matches Ok(s) ==> {
            &&& s.completions == max_completions
            &&& s.recorded <= s.completions
            &&& ramp_ns == 0 ==> s.recorded == s.completions
            &&& final(metrics).spec_total_count() == spec_sat_add(
                old(metrics).spec_total_count(),
                s.recorded,
            )
            &&& final(metrics).spec_completion_count() == spec_sat_add(
                old(metrics).spec_completion_count(),
                s.recorded,
            )
            &&& final(metrics).spec_samples().len() == old(metrics).spec_samples().len()
                + s.recorded
            &&& reads_cycle_offsets(
                final(backend).spec_history(),
                old(backend).spec_history().len() as int,
                offsets@,
                old(pool).block_size(),
                final(pool).slot_count(),
            )
        },
{
    let ghost hist0 = backend.spec_history();
    let ghost tc0 = metrics.spec_total_count();
    let ghost cc0 = metrics.spec_completion_count();
    let ghost slen0 = metrics.spec_samples().len();
    let n = offsets.len();
    let mut index: usize = 0;
    let mut consumed: u64 = 0;
    let mut recorded: u64 = 0;
    let mut ramping = true;
    let mut reports: Vec<u64> = Vec::new();
    proof {
        backend.wf_implies_bounded();
        vstd::arithmetic::div_mod::lemma_small_mod(0, n as nat);
    }
    loop
        invariant
            backend.wf(),
            backend.spec_cap() == old(backend).spec_cap(),
            backend.spec_cap() >= 1,
            backend.spec_inflight() <= backend.spec_cap(),
            pool.wf(),
            pool.block_size() == old(pool).block_size(),
            metrics.wf(),
            n == offsets@.len(),
            n > 0,
            index < n,
            consumed <= max_completions,
            recorded <= consumed,
            ramp_ns == 0 ==> recorded == consumed,
            tc0 == old(metrics).spec_total_count(),
            cc0 == old(metrics).spec_completion_count(),
            slen0 == old(metrics).spec_samples().len(),
            metrics.spec_total_count() == spec_sat_add(tc0, recorded),
            metrics.spec_completion_count() == spec_sat_add(cc0, recorded),
            metrics.spec_samples().len() == slen0 + recorded,
            hist0 == old(backend).spec_history(),
            index == (backend.spec_history().len() - hist0.len()) % (n as int),
            reads_cycle_offsets(
                backend.spec_history(),
                hist0.len() as int,
                offsets@,
                old(pool).block_size(),
                pool.slot_count(),
            ),
        decreases max_completions - consumed,
    {
        if consumed == max_completions {
            return Ok(MeasureSummary { completions: consumed, recorded, iops_reports: reports });
        }
        let now = clock_nanos(origin);
        if metrics.on_tick(now) {
            reports.push(metrics.last_iops());
        }
        if ramping && now >= ramp_ns {
            ramping = false;
        }
        loop
            invariant
                backend.wf(),
                backend.spec_cap() == old(backend).spec_cap(),
                backend.spec_cap() >= 1,
                backend.spec_inflight() <= backend.spec_cap(),
                pool.wf(),
                pool.block_size() == old(pool).block_size(),
                metrics.wf(),
                max_completions > 0,
                n == offsets@.len(),
                n > 0,
                index < n,
                index == (backend.spec_history().len() - hist0.len()) % (n as int),
                reads_cycle_offsets(
                    backend.spec_history(),
                    hist0.len() as int,
                    offsets@,
                    old(pool).block_size(),
                    pool.slot_count(),
                ),
            ensures
                backend.spec_inflight() == backend.spec_cap(),
                index == (backend.spec_history().len() - hist0.len()) % (n as int),
                reads_cycle_offsets(
                    backend.spec_history(),
                    hist0.len() as int,
                    offsets@,
                    old(pool).block_size(),
                    pool.slot_count(),
                ),
            decreases backend.spec_cap() - backend.spec_inflight(),
        {
            if backend.is_full() {
                break;
            }
            if pool.slots() == usize::MAX {
                return Err(RunError::PoolExhausted);
            }
            let offset = offsets[index];
            let prev_index = index;
            index = (index + 1) % n;
            let (buf_index, buf) = pool.checkout();
            let now2 = clock_nanos(origin);
            let mut op = Op::read(buf, offset, now2);
            op.user_data = buf_index as u64;
            proof {
                let s = backend.spec_history().len() - hist0.len();
                vstd::arithmetic::div_mod::lemma_fundamental_div_mod(s, n as int);
                vstd::arithmetic::div_mod::lemma_mod_multiples_vanish(
                    s / (n as int),
                    prev_index + 1,
                    n as int,
                );
                assert(op.user_data < pool.slot_count());
            }
            match backend.submit(op) {
                Ok(()) => {},
                Err(_) => {
                    return Err(RunError::Disconnected);
                },
            }
        }
        match backend.wait() {
            Ok(completed) => {
                match completed {
                    Some(op) => {
                        if op.result < 0 {
                            return Err(RunError::Io(op.result));
                        }
                        if !ramping {
                            let nowc = clock_nanos(origin);
                            match metrics.on_op_complete(&op, nowc) {
                                Ok(()) => {
                                    recorded = recorded + 1;
                                },
                                Err(e) => {
                                    return Err(RunError::Metrics(e));
                                },
                            }
                        }
                        let (buf, user_data) = op.into_buffer();
                        if user_data > (usize::MAX as u64) {
                            return Err(RunError::BadCompletion);
                        }
                        let buf_index = user_data as usize;
                        if !pool.is_live(buf_index) {
                            return Err(RunError::BadCompletion);
                        }
                        if !buf.is_wf() {
                            return Err(RunError::BadCompletion);
                        }
                        if buf.len() != pool.buf_len() {
                            return Err(RunError::BadCompletion);
                        }
                        pool.release(buf_index, buf);
                        consumed = consumed + 1;
                    },
                    None => {
                        proof {
                            assert(false);
                        }
                    },
                }
            },
            Err(_) => {
                return Err(RunError::Disconnected);
            },
        }
    }
}

/// The writes of a completed layout phase inherit the offsets' guarantees:
/// one write per populated offset, every target distinct, block-aligned
/// and inside the file.
pub proof fn lemma_layout_targets(hist: Seq<Op>, base: int, offsets: Seq<u64>, bs: u64, size: u64)
    requires
        0 <= base,
        hist.len() == base + offsets.len(),
        forall|k: int|
            0 <= k < offsets.len() ==> (#[trigger] hist[base + k]).ty is Write && hist[base
                + k].ty.spec_at() == offsets[k],
        offsets.no_duplicates(),
        forall|k: int|
            0 <= k < offsets.len() ==> (#[trigger] offsets[k]) % bs == 0 && offsets[k] < size,
    ensures
        forall|k1: int, k2: int|
            base <= k1 < hist.len() && base <= k2 < hist.len() && k1 != k2 ==> (
            #[trigger] hist[k1].ty.spec_at()) != (#[trigger] hist[k2].ty.spec_at()),
        forall|k: int|
            base <= k < hist.len() ==> (#[trigger] hist[k]).ty is Write && hist[k].ty.spec_at()
                % bs == 0 && hist[k].ty.spec_at() < size,
{
    assert forall|k1: int, k2: int|
        base <= k1 < hist.len() && base <= k2 < hist.len() && k1 != k2 implies (
    #[trigger] hist[k1].ty.spec_at()) != (#[trigger] hist[k2].ty.spec_at()) by {
        assert(hist[base + (k1 - base)].ty.spec_at() == offsets[k1 - base]);
        assert(hist[base + (k2 - base)].ty.spec_at() == offsets[k2 - base]);
    }
    assert forall|k: int|
        base <= k < hist.len() implies (#[trigger] hist[k]).ty is Write && hist[k].ty.spec_at()
            % bs == 0 && hist[k].ty.spec_at() < size by {
        assert(hist[base + (k - base)].ty is Write);
        assert(offsets[k - base] % bs == 0 && offsets[k - base] < size);
    }
}

} // verus!
