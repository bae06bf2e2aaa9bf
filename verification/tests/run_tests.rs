use crossbeam::channel;
use iobench::clock::clock_start;
use iobench::config::{validate_config, Backend};
use iobench::engine::ChannelFrontend;
use iobench::junk::JunkBuf;
use iobench::layout::generate_offsets;
use iobench::memfile::apply_op;
use iobench::metrics::Metrics;
use iobench::op::Op;
use iobench::pool::BufPool;
use iobench::rng::rng;
use iobench::run::{run_layout, run_measure, RunError};

/// Plays the worker side of an engine against an in-memory file: receives
/// each request, stamps it, executes it as a memory copy, and echoes it on
/// the completion channel. Returns the file when the submission side hangs
/// up.
fn serve(mut file: Vec<u8>, sq_rx: channel::Receiver<Op>, cq_tx: channel::Sender<Op>) -> Vec<u8> {
    while let Ok(mut op) = sq_rx.recv() {
        op.note_submitted(1);
        apply_op(&mut file, &mut op);
        op.note_retired(2);
        if cq_tx.send(op).is_err() {
            break;
        }
    }
    file
}

#[test]
fn end_to_end_layout_and_measurement() {
    // size = 1 MiB, bs = 4096, ratio = 1/2: 256 blocks, 128 populated.
    let opts = validate_config(
        false,
        true,
        4096,
        1048576,
        1,
        2,
        1,
        8,
        false,
        false,
        false,
        false,
        false,
        0,
        Backend::Sync,
    )
    .unwrap();
    assert_eq!(opts.n_blocks, 256);
    assert_eq!(opts.n_populated_blocks, 128);

    let mut r = rng();
    let offsets = generate_offsets(opts.n_blocks, opts.bs, opts.n_populated_blocks, &mut r);
    assert_eq!(offsets.len(), 128);
    let junk = JunkBuf::new(opts.bs as usize, &mut r);
    let origin = clock_start();

    // Layout phase: exactly one write per populated offset.
    let file = crossbeam::scope(|s| {
        let (sq_tx, sq_rx) = channel::bounded::<Op>(8);
        let (cq_tx, cq_rx) = channel::bounded::<Op>(8);
        let worker = s.spawn(move |_| serve(vec![0u8; 1048576], sq_rx, cq_tx));
        let mut frontend = ChannelFrontend::new(sq_tx, cq_rx, 8);
        run_layout(&mut frontend, &offsets, &junk, &mut r, &origin).unwrap();
        drop(frontend);
        worker.join().unwrap()
    })
    .unwrap();

    // Exactly the populated blocks hold payload; the rest are holes.
    let mut populated = 0;
    for i in 0..256 {
        if file[i * 4096..(i + 1) * 4096].iter().any(|&b| b != 0) {
            populated += 1;
        }
    }
    assert_eq!(populated, 128);
    for &o in &offsets {
        let start = o as usize;
        assert!(file[start..start + 4096].iter().any(|&b| b != 0));
    }

    // Measurement phase: cycle reads over the same offsets; with no
    // ramp-up, every consumed completion is recorded.
    let mut pool = BufPool::new(4096);
    let mut metrics = Metrics::new(0).unwrap();
    let summary = crossbeam::scope(|s| {
        let (sq_tx, sq_rx) = channel::bounded::<Op>(8);
        let (cq_tx, cq_rx) = channel::bounded::<Op>(8);
        let worker = s.spawn(move |_| serve(file, sq_rx, cq_tx));
        let mut frontend = ChannelFrontend::new(sq_tx, cq_rx, 8);
        let summary = run_measure(
            &mut frontend,
            &offsets,
            &mut pool,
            &mut metrics,
            &origin,
            0,
            256,
        )
        .unwrap();
        drop(frontend);
        worker.join().unwrap();
        summary
    })
    .unwrap();

    assert_eq!(summary.completions, 256);
    assert_eq!(summary.recorded, 256);
    assert_eq!(metrics.sample_counts(), (256, 256));
    // The pool never outgrows the backlog: at most 8 buffers in flight.
    assert!(pool.slots() <= 8);
}

#[test]
fn ramp_up_completions_are_not_recorded() {
    let mut r = rng();
    let offsets = generate_offsets(16, 512, 16, &mut r);
    let junk = JunkBuf::new(512, &mut r);
    let origin = clock_start();

    let file = crossbeam::scope(|s| {
        let (sq_tx, sq_rx) = channel::bounded::<Op>(4);
        let (cq_tx, cq_rx) = channel::bounded::<Op>(4);
        let worker = s.spawn(move |_| serve(vec![0u8; 16 * 512], sq_rx, cq_tx));
        let mut frontend = ChannelFrontend::new(sq_tx, cq_rx, 4);
        run_layout(&mut frontend, &offsets, &junk, &mut r, &origin).unwrap();
        drop(frontend);
        worker.join().unwrap()
    })
    .unwrap();

    let mut pool = BufPool::new(512);
    let mut metrics = Metrics::new(0).unwrap();
    let summary = crossbeam::scope(|s| {
        let (sq_tx, sq_rx) = channel::bounded::<Op>(4);
        let (cq_tx, cq_rx) = channel::bounded::<Op>(4);
        let worker = s.spawn(move |_| serve(file, sq_rx, cq_tx));
        let mut frontend = ChannelFrontend::new(sq_tx, cq_rx, 4);
        // A ramp window that never ends: real I/O, nothing recorded.
        let summary = run_measure(
            &mut frontend,
            &offsets,
            &mut pool,
            &mut metrics,
            &origin,
            u64::MAX,
            64,
        )
        .unwrap();
        drop(frontend);
        worker.join().unwrap();
        summary
    })
    .unwrap();

    assert_eq!(summary.completions, 64);
    assert_eq!(summary.recorded, 0);
    assert_eq!(metrics.sample_counts(), (0, 0));
}

/// A worker that reports an I/O failure on every request.
fn serve_failing(sq_rx: channel::Receiver<Op>, cq_tx: channel::Sender<Op>) {
    while let Ok(mut op) = sq_rx.recv() {
        op.note_submitted(1);
        op.result = -5;
        op.note_retired(2);
        if cq_tx.send(op).is_err() {
            break;
        }
    }
}

#[test]
fn io_failure_aborts_the_run() {
    let mut r = rng();
    let offsets = generate_offsets(16, 512, 16, &mut r);
    let junk = JunkBuf::new(512, &mut r);
    let origin = clock_start();
    let err = crossbeam::scope(|s| {
        let (sq_tx, sq_rx) = channel::bounded::<Op>(4);
        let (cq_tx, cq_rx) = channel::bounded::<Op>(4);
        let worker = s.spawn(move |_| serve_failing(sq_rx, cq_tx));
        let mut frontend = ChannelFrontend::new(sq_tx, cq_rx, 4);
        let err = run_layout(&mut frontend, &offsets, &junk, &mut r, &origin).unwrap_err();
        drop(frontend);
        worker.join().unwrap();
        err
    })
    .unwrap();
    assert!(matches!(err, RunError::Io(-5)));
}

/// A worker that scrambles the correlation data before echoing.
fn serve_scrambling(
    mut file: Vec<u8>,
    sq_rx: channel::Receiver<Op>,
    cq_tx: channel::Sender<Op>,
) {
    while let Ok(mut op) = sq_rx.recv() {
        op.note_submitted(1);
        apply_op(&mut file, &mut op);
        op.note_retired(2);
        op.user_data = 9999;
        if cq_tx.send(op).is_err() {
            break;
        }
    }
}

#[test]
fn corrupted_correlation_data_is_refused() {
    let mut r = rng();
    let offsets = generate_offsets(16, 512, 16, &mut r);
    let origin = clock_start();
    let mut pool = BufPool::new(512);
    let mut metrics = Metrics::new(0).unwrap();
    let err = crossbeam::scope(|s| {
        let (sq_tx, sq_rx) = channel::bounded::<Op>(4);
        let (cq_tx, cq_rx) = channel::bounded::<Op>(4);
        let worker = s.spawn(move |_| serve_scrambling(vec![0u8; 16 * 512], sq_rx, cq_tx));
        let mut frontend = ChannelFrontend::new(sq_tx, cq_rx, 4);
        let err = run_measure(&mut frontend, &offsets, &mut pool, &mut metrics, &origin, 0, 64)
            .unwrap_err();
        drop(frontend);
        worker.join().unwrap();
        err
    })
    .unwrap();
    assert!(matches!(err, RunError::BadCompletion));
}

#[test]
fn worker_shutdown_mid_run_is_an_error() {
    let mut r = rng();
    let offsets = generate_offsets(16, 512, 16, &mut r);
    let junk = JunkBuf::new(512, &mut r);
    let origin = clock_start();
    let err = crossbeam::scope(|s| {
        let (sq_tx, sq_rx) = channel::bounded::<Op>(2);
        let (cq_tx, cq_rx) = channel::bounded::<Op>(2);
        // A worker that serves exactly one request and quits.
        let worker = s.spawn(move |_| {
            let mut file = vec![0u8; 16 * 512];
            if let Ok(mut op) = sq_rx.recv() {
                op.note_submitted(1);
                apply_op(&mut file, &mut op);
                op.note_retired(2);
                let _ = cq_tx.send(op);
            }
        });
        let mut frontend = ChannelFrontend::new(sq_tx, cq_rx, 2);
        let err = run_layout(&mut frontend, &offsets, &junk, &mut r, &origin).unwrap_err();
        drop(frontend);
        worker.join().unwrap();
        err
    })
    .unwrap();
    assert!(matches!(err, RunError::Disconnected));
}
