use iobench::engine::{uring_recv_mode, Backend, ChannelFrontend, Engine, RecvMode, UringFrontend};
use iobench::aligned::AlignedBuf;
use iobench::op::Op;

fn read_op(at: u64) -> Op {
    Op::read(AlignedBuf::zeroed(64, 512), at, 0)
}

#[test]
fn backlog_capacity_is_exact() {
    // A freshly initialized engine accepts exactly `backlog_cnt`
    // submissions without blocking; it reports full at the capacity and
    // not before.
    let (sq_tx, _sq_rx) = crossbeam::channel::bounded::<Op>(8);
    let (_cq_tx, cq_rx) = crossbeam::channel::bounded::<Op>(8);
    let mut fe = ChannelFrontend::new(sq_tx, cq_rx, 8);
    for i in 0..8 {
        assert!(!fe.is_full(), "must not be full after {} submissions", i);
        fe.submit(read_op(i as u64 * 512)).unwrap();
    }
    assert!(fe.is_full());
}

#[test]
fn wait_on_idle_engine_returns_nothing() {
    let (sq_tx, _sq_rx) = crossbeam::channel::bounded::<Op>(4);
    let (_cq_tx, cq_rx) = crossbeam::channel::bounded::<Op>(4);
    let mut fe = ChannelFrontend::new(sq_tx, cq_rx, 4);
    assert!(matches!(fe.wait(), Ok(None)));
}

#[test]
fn completions_drain_and_free_capacity() {
    let (sq_tx, sq_rx) = crossbeam::channel::bounded::<Op>(2);
    let (cq_tx, cq_rx) = crossbeam::channel::bounded::<Op>(2);
    let mut fe = ChannelFrontend::new(sq_tx, cq_rx, 2);
    fe.submit(read_op(0)).unwrap();
    fe.submit(read_op(512)).unwrap();
    assert!(fe.is_full());

    // Service the queue as a worker would: stamp and echo both ops.
    for _ in 0..2 {
        let mut op = sq_rx.recv().unwrap();
        op.note_submitted(1);
        op.note_retired(2);
        cq_tx.send(op).unwrap();
    }

    let first = fe.wait().unwrap().unwrap();
    assert_eq!(first.submitted, Some(1));
    assert_eq!(first.retired, Some(2));
    assert!(!fe.is_full());
    let _second = fe.wait().unwrap().unwrap();
    assert!(matches!(fe.wait(), Ok(None)));
}

#[test]
fn user_data_survives_the_round_trip() {
    let (sq_tx, sq_rx) = crossbeam::channel::bounded::<Op>(1);
    let (cq_tx, cq_rx) = crossbeam::channel::bounded::<Op>(1);
    let mut fe = ChannelFrontend::new(sq_tx, cq_rx, 1);
    let mut op = read_op(0);
    op.user_data = 99;
    fe.submit(op).unwrap();
    let echoed = sq_rx.recv().unwrap();
    assert_eq!(echoed.user_data, 99);
    cq_tx.send(echoed).unwrap();
    let back = fe.wait().unwrap().unwrap();
    assert_eq!(back.user_data, 99);
}

#[test]
fn submit_after_disconnect_returns_the_op() {
    let (sq_tx, sq_rx) = crossbeam::channel::bounded::<Op>(1);
    let (_cq_tx, cq_rx) = crossbeam::channel::bounded::<Op>(1);
    let mut fe = ChannelFrontend::new(sq_tx, cq_rx, 1);
    drop(sq_rx);
    let mut op = read_op(0);
    op.user_data = 7;
    let back = fe.submit(op).unwrap_err();
    assert_eq!(back.user_data, 7);
    assert!(!fe.is_full());
}

#[test]
fn uring_frontend_round_robins_over_workers() {
    let (tx_a, rx_a) = std::sync::mpsc::sync_channel::<Op>(4);
    let (tx_b, rx_b) = std::sync::mpsc::sync_channel::<Op>(4);
    let (cq_tx, cq_rx) = std::sync::mpsc::sync_channel::<Op>(4);
    let mut fe = UringFrontend::new(vec![tx_a, tx_b], cq_rx, 4);
    for i in 0..4 {
        assert!(!fe.is_full());
        fe.submit(read_op(i as u64 * 512)).unwrap();
    }
    assert!(fe.is_full());
    // The frontend spreads submissions across the per-worker channels.
    assert_eq!(rx_a.try_iter().count(), 2);
    assert_eq!(rx_b.try_iter().count(), 2);
    drop(cq_tx);
    assert!(fe.wait().is_err());
}

#[test]
fn engine_enum_dispatches_to_its_frontend() {
    let (sq_tx, sq_rx) = crossbeam::channel::bounded::<Op>(2);
    let (cq_tx, cq_rx) = crossbeam::channel::bounded::<Op>(2);
    let mut engine = Engine::Sync(ChannelFrontend::new(sq_tx, cq_rx, 2));
    assert!(!engine.is_full());
    engine.submit(read_op(0)).unwrap();
    let mut op = sq_rx.recv().unwrap();
    op.note_submitted(3);
    op.note_retired(4);
    cq_tx.send(op).unwrap();
    let back = engine.wait().unwrap().unwrap();
    assert_eq!(back.retired, Some(4));
    assert!(matches!(engine.wait(), Ok(None)));
}

#[test]
fn uring_pull_decisions() {
    assert_eq!(uring_recv_mode(0, 64, false), RecvMode::Blocking);
    assert_eq!(uring_recv_mode(3, 64, false), RecvMode::NonBlocking);
    assert_eq!(uring_recv_mode(63, 64, false), RecvMode::NonBlocking);
    assert_eq!(uring_recv_mode(64, 64, false), RecvMode::Stop);
    assert_eq!(uring_recv_mode(3, 64, true), RecvMode::Stop);
    assert_eq!(uring_recv_mode(0, 0, false), RecvMode::Stop);
}
