//! The capacity-bounded asynchronous execution engines.
//!
//! An engine accepts requests, reports when it is saturated, and yields
//! completed requests in arbitrary order. The frontends here track the
//! in-flight count and talk to the worker threads over bounded channels;
//! the workers themselves perform the actual I/O and live outside the
//! library.

use vstd::prelude::*;

use crate::op::Op;

verus! {

/// Error of an engine: the worker side of a channel hung up while
/// completions were still owed.
#[derive(Debug, Clone, Copy, PartialEq, Eq, Structural)]
pub enum EngineError {
    Disconnected,
}

/// The sending half of a crossbeam channel, carried opaquely.
#[verifier::external_type_specification]
#[verifier::external_body]
#[verifier::reject_recursive_types(T)]
pub struct ExCbSender<T>(crossbeam::channel::Sender<T>);

/// The receiving half of a crossbeam channel, carried opaquely.
#[verifier::external_type_specification]
#[verifier::external_body]
#[verifier::reject_recursive_types(T)]
pub struct ExCbReceiver<T>(crossbeam::channel::Receiver<T>);

/// The sending half of a bounded standard-library channel, carried
/// opaquely.
#[verifier::external_type_specification]
#[verifier::external_body]
#[verifier::reject_recursive_types(T)]
pub struct ExMpscSyncSender<T>(std::sync::mpsc::SyncSender<T>);

/// The receiving half of a standard-library channel, carried opaquely.
#[verifier::external_type_specification]
#[verifier::external_body]
#[verifier::reject_recursive_types(T)]
pub struct ExMpscReceiver<T>(std::sync::mpsc::Receiver<T>);

/// Relies on crossbeam_channel::Sender::send: delivers the message unless
/// every receiver is gone, in which case the message comes back unchanged.
#[verifier::external_body]
fn cb_send(tx: &crossbeam::channel::Sender<Op>, op: Op) -> (r: Result<(), Op>)
    ensures
        r matches Err(e) ==> e == op,
{
    match tx.send(op) {
        Ok(()) => Ok(()),
        Err(crossbeam::channel::SendError(op)) => Err(op),
    }
}

/// Relies on crossbeam_channel::Receiver::recv: blocks until a message
/// arrives, or returns nothing once the channel is empty and every sender
/// is gone.
#[verifier::external_body]
fn cb_recv(rx: &crossbeam::channel::Receiver<Op>) -> (r: Option<Op>) {
    rx.recv().ok()
}

/// Relies on std::sync::mpsc::SyncSender::send: delivers the message unless
/// every receiver is gone, in which case the message comes back unchanged.
#[verifier::external_body]
fn mpsc_send(tx: &std::sync::mpsc::SyncSender<Op>, op: Op) -> (r: Result<(), Op>)
    ensures
        r matches Err(e) ==> e == op,
{
    match tx.send(op) {
        Ok(()) => Ok(()),
        Err(std::sync::mpsc::SendError(op)) => Err(op),
    }
}

/// Relies on std::sync::mpsc::Receiver::recv: blocks until a message
/// arrives, or returns nothing once the channel is empty and every sender
/// is gone.
#[verifier::external_body]
fn mpsc_recv(rx: &std::sync::mpsc::Receiver<Op>) -> (r: Option<Op>) {
    rx.recv().ok()
}

/// A capacity-bounded asynchronous executor.
///
/// `spec_inflight` counts the requests accepted and not yet yielded back;
/// it never exceeds `spec_cap`, the configured backlog capacity.
/// `spec_history` records every accepted request in submission order.
pub trait Backend: Sized {
    spec fn spec_inflight(&self) -> nat;

    spec fn spec_cap(&self) -> nat;

    spec fn spec_history(&self) -> Seq<Op>;

    spec fn wf(&self) -> bool;

    /// The in-flight count of a well-formed engine never exceeds its
    /// capacity.
    proof fn wf_implies_bounded(&self)
        requires
            self.wf(),
        ensures
            self.spec_inflight() <= self.spec_cap(),
    ;

    /// The engine is saturated: no further request may be submitted until a
    /// completion is drained.
    fn is_full(&self) -> (r: bool)
        requires
            self.wf(),
        ensures
            r <==> self.spec_inflight() == self.spec_cap(),
    ;

    /// Hands a request to the engine. Must only be called when the engine is
    /// not saturated. On success the request is in flight; if the worker
    /// side has hung up, the request comes back unchanged.
    fn submit(&mut self, op: Op) -> (r: Result<(), Op>)
        requires
            old(self).wf(),
            old(self).spec_inflight() < old(self).spec_cap(),
        ensures
            final(self).wf(),
            final(self).spec_cap() == old(self).spec_cap(),
            r is Ok ==> {
                &&& final(self).spec_inflight() == old(self).spec_inflight() + 1
                &&& final(self).spec_history() == old(self).spec_history().push(op)
            },
            r matches Err(e) ==> {
                &&& e == op
                &&& final(self).spec_inflight() == old(self).spec_inflight()
                &&& final(self).spec_history() == old(self).spec_history()
            },
    ;

    /// Yields the next completion. Returns nothing, immediately, when no
    /// request is in flight; otherwise blocks until one completion arrives.
    fn wait(&mut self) -> (r: Result<Option<Op>, EngineError>)
        requires
            old(self).wf(),
        ensures
            final(self).wf(),
            final(self).spec_cap() == old(self).spec_cap(),
            final(self).spec_history() == old(self).spec_history(),
            old(self).spec_inflight() == 0 ==> (r matches Ok(o) && o is None),
            (r matches Ok(o) && o is Some) ==> {
                &&& old(self).spec_inflight() > 0
                &&& final(self).spec_inflight() == old(self).spec_inflight() - 1
            },
            (r matches Ok(o) && o is None) ==> {
                &&& old(self).spec_inflight() == 0
                &&& final(self).spec_inflight() == 0
            },
            r is Err ==> final(self).spec_inflight() == old(self).spec_inflight(),
    ;
}

/// Frontend shared by the memory-mapped and the synchronous-syscall
/// engines: one bounded submission channel and one bounded completion
/// channel, shared by all workers.
pub struct ChannelFrontend {
    sq_tx: crossbeam::channel::Sender<Op>,
    cq_rx: crossbeam::channel::Receiver<Op>,
    inflight: usize,
    cap: usize,
    history: Ghost<Seq<Op>>,
}

impl ChannelFrontend {
    /// A frontend over freshly created channel endpoints; the receiver ends
    /// of `sq_tx` and the sender ends of `cq_rx` belong to the workers.
    pub fn new(
        sq_tx: crossbeam::channel::Sender<Op>,
        cq_rx: crossbeam::channel::Receiver<Op>,
        cap: usize,
    ) -> (r: ChannelFrontend)
        ensures
            r.wf(),
            r.spec_inflight() == 0,
            r.spec_cap() == cap,
            r.spec_history() == Seq::<Op>::empty(),
    {
        ChannelFrontend { sq_tx, cq_rx, inflight: 0, cap, history: Ghost(Seq::empty()) }
    }
}

impl Backend for ChannelFrontend {
    closed spec fn spec_inflight(&self) -> nat {
        self.inflight as nat
    }

    closed spec fn spec_cap(&self) -> nat {
        self.cap as nat
    }

    closed spec fn spec_history(&self) -> Seq<Op> {
        self.history@
    }

    closed spec fn wf(&self) -> bool {
        self.inflight <= self.cap
    }

    proof fn wf_implies_bounded(&self) {
    }

    fn is_full(&self) -> (r: bool) {
        self.inflight == self.cap
    }

    fn submit(&mut self, op: Op) -> (r: Result<(), Op>) {
        let ghost op0 = op;
        match cb_send(&self.sq_tx, op) {
            Ok(()) => {
                self.inflight = self.inflight + 1;
                proof {
                    self.history@ = self.history@.push(op0);
                }
                Ok(())
            },
            Err(op) => Err(op),
        }
    }

    fn wait(&mut self) -> (r: Result<Option<Op>, EngineError>) {
        if self.inflight == 0 {
            return Ok(None);
        }
        match cb_recv(&self.cq_rx) {
            Some(op) => {
                self.inflight = self.inflight - 1;
                Ok(Some(op))
            },
            None => Err(EngineError::Disconnected),
        }
    }
}

/// Frontend of the io_uring engine: one bounded submission channel per
/// worker, round-robined to spread kernel-ring contention, and one shared
/// completion channel.
pub struct UringFrontend {
    round_robin: usize,
    op_txs: Vec<std::sync::mpsc::SyncSender<Op>>,
    retired_rx: std::sync::mpsc::Receiver<Op>,
    inflight: usize,
    cap: usize,
    history: Ghost<Seq<Op>>,
}

impl UringFrontend {
    /// A frontend over one submission endpoint per worker and the shared
    /// completion endpoint.
    pub fn new(
        op_txs: Vec<std::sync::mpsc::SyncSender<Op>>,
        retired_rx: std::sync::mpsc::Receiver<Op>,
        cap: usize,
    ) -> (r: UringFrontend)
        requires
            op_txs@.len() > 0,
        ensures
            r.wf(),
            r.spec_inflight() == 0,
            r.spec_cap() == cap,
            r.spec_history() == Seq::<Op>::empty(),
    {
        UringFrontend {
            round_robin: 0,
            op_txs,
            retired_rx,
            inflight: 0,
            cap,
            history: Ghost(Seq::empty()),
        }
    }
}

impl Backend for UringFrontend {
    closed spec fn spec_inflight(&self) -> nat {
        self.inflight as nat
    }

    closed spec fn spec_cap(&self) -> nat {
        self.cap as nat
    }

    closed spec fn spec_history(&self) -> Seq<Op> {
        self.history@
    }

    closed spec fn wf(&self) -> bool {
        &&& self.inflight <= self.cap
        &&& self.op_txs@.len() > 0
        &&& self.round_robin < self.op_txs@.len()
    }

    proof fn wf_implies_bounded(&self) {
    }

    fn is_full(&self) -> (r: bool) {
        self.inflight == self.cap
    }

    fn submit(&mut self, op: Op) -> (r: Result<(), Op>) {
        let ghost op0 = op;
        let idx = self.round_robin;
        let n = self.op_txs.len();
        self.round_robin = (idx + 1) % n;
        match mpsc_send(&self.op_txs[idx], op) {
            Ok(()) => {
                self.inflight = self.inflight + 1;
                proof {
                    self.history@ = self.history@.push(op0);
                }
                Ok(())
            },
            Err(op) => Err(op),
        }
    }

    fn wait(&mut self) -> (r: Result<Option<Op>, EngineError>) {
        if self.inflight == 0 {
            return Ok(None);
        }
        match mpsc_recv(&self.retired_rx) {
            Some(op) => {
                self.inflight = self.inflight - 1;
                Ok(Some(op))
            },
            None => Err(EngineError::Disconnected),
        }
    }
}

/// The closed set of execution engines, dispatched through the one
/// submit/wait interface.
pub enum Engine {
    IoUring(UringFrontend),
    Mmap(ChannelFrontend),
    Sync(ChannelFrontend),
}

impl Backend for Engine {
    open spec fn spec_inflight(&self) -> nat {
        match self {
            Engine::IoUring(f) => f.spec_inflight(),
            Engine::Mmap(f) => f.spec_inflight(),
            Engine::Sync(f) => f.spec_inflight(),
        }
    }

    open spec fn spec_cap(&self) -> nat {
        match self {
            Engine::IoUring(f) => f.spec_cap(),
            Engine::Mmap(f) => f.spec_cap(),
            Engine::Sync(f) => f.spec_cap(),
        }
    }

    open spec fn spec_history(&self) -> Seq<Op> {
        match self {
            Engine::IoUring(f) => f.spec_history(),
            Engine::Mmap(f) => f.spec_history(),
            Engine::Sync(f) => f.spec_history(),
        }
    }

    open spec fn wf(&self) -> bool {
        match self {
            Engine::IoUring(f) => f.wf(),
            Engine::Mmap(f) => f.wf(),
            Engine::Sync(f) => f.wf(),
        }
    }

    proof fn wf_implies_bounded(&self) {
        match self {
            Engine::IoUring(f) => f.wf_implies_bounded(),
            Engine::Mmap(f) => f.wf_implies_bounded(),
            Engine::Sync(f) => f.wf_implies_bounded(),
        }
    }

    fn is_full(&self) -> (r: bool) {
        match self {
            Engine::IoUring(f) => f.is_full(),
            Engine::Mmap(f) => f.is_full(),
            Engine::Sync(f) => f.is_full(),
        }
    }

    fn submit(&mut self, op: Op) -> (r: Result<(), Op>) {
        match self {
            Engine::IoUring(f) => f.submit(op),
            Engine::Mmap(f) => f.submit(op),
            Engine::Sync(f) => f.submit(op),
        }
    }

    fn wait(&mut self) -> (r: Result<Option<Op>, EngineError>) {
        match self {
            Engine::IoUring(f) => f.wait(),
            Engine::Mmap(f) => f.wait(),
            Engine::Sync(f) => f.wait(),
        }
    }
}

/// How an io_uring worker fetches its next pending request, given the
/// state of its kernel ring.
#[derive(Debug, PartialEq, Eq, Structural)]
pub enum RecvMode {
    /// The ring has no spare room: stop pulling and flush what was queued.
    Stop,
    /// Nothing is in flight, so there is nothing to drain: park on the
    /// submission channel until work arrives.
    Blocking,
    /// Work is in flight: poll for more without stalling, so ready
    /// completions are not delayed waiting for work that may never come.
    NonBlocking,
}

/// The pull decision of an io_uring worker's loop: keep pulling while the
/// in-flight set and the submission queue both have spare room, parking
/// only when the worker has nothing in flight.
pub fn uring_recv_mode(inflight_cnt: usize, depth: usize, sq_full: bool) -> (r: RecvMode)
    ensures
        r == RecvMode::Stop <==> (inflight_cnt >= depth || sq_full),
        r == RecvMode::Blocking <==> (inflight_cnt == 0 && depth > 0 && !sq_full),
        r == RecvMode::NonBlocking <==> (0 < inflight_cnt < depth && !sq_full),
{
    if inflight_cnt >= depth || sq_full {
        RecvMode::Stop
    } else if inflight_cnt == 0 {
        RecvMode::Blocking
    } else {
        RecvMode::NonBlocking
    }
}

/// Every well-formed engine keeps its in-flight count within its capacity.
pub proof fn lemma_inflight_bounded<B: Backend>(b: &B)
    requires
        b.wf(),
    ensures
        0 <= b.spec_inflight() <= b.spec_cap(),
{
    b.wf_implies_bounded();
}

} // verus!
