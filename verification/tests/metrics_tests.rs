use iobench::aligned::AlignedBuf;
use iobench::metrics::{Metrics, MetricsError};
use iobench::op::Op;

fn completed_op() -> Op {
    let mut op = Op::read(AlignedBuf::zeroed(16, 512), 0, 100);
    op.note_submitted(150);
    op.note_retired(400);
    op
}

#[test]
fn samples_are_counted() {
    let mut m = Metrics::new(0).unwrap();
    assert_eq!(m.sample_counts(), (0, 0));
    m.on_op_complete(&completed_op(), 500).unwrap();
    assert_eq!(m.sample_counts(), (1, 1));
    m.on_op_complete(&completed_op(), 600).unwrap();
    assert_eq!(m.sample_counts(), (2, 2));
}

#[test]
fn missing_timestamps_are_refused() {
    let mut m = Metrics::new(0).unwrap();
    let op = Op::read(AlignedBuf::zeroed(16, 512), 0, 100);
    // Never submitted or retired: the completion cannot be attributed.
    let r = m.on_op_complete(&op, 500);
    assert!(matches!(r, Err(MetricsError::MissingTimestamp)));
    assert_eq!(m.sample_counts(), (0, 0));
}

#[test]
fn tick_is_gated_on_volume_and_time() {
    let mut m = Metrics::new(0).unwrap();
    // Too few completions: no display, whatever the clock says.
    assert!(!m.on_tick(5_000_000_000));
    for _ in 0..1000 {
        m.on_op_complete(&completed_op(), 500).unwrap();
    }
    // Enough completions but the rolling second has not elapsed.
    assert!(!m.on_tick(999_999_999));
    // Both conditions met: the counter rotates.
    assert!(m.on_tick(1_000_000_000));
    assert_eq!(m.last_iops(), 1000);
    // Just rotated: nothing more to display.
    assert!(!m.on_tick(1_000_000_001));
}

#[test]
fn recorded_latencies_are_reachable_for_display() {
    let mut m = Metrics::new(0).unwrap();
    m.on_op_complete(&completed_op(), 500).unwrap();
    // total latency: 500 - 100; execution latency: 400 - 150.
    assert_eq!(m.total_histogram().inner.len(), 1);
    assert_eq!(m.completion_histogram().inner.len(), 1);
    assert!(m.total_histogram().inner.max() >= 399);
    assert!(m.completion_histogram().inner.max() >= 249);
}
