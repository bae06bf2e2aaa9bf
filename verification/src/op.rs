//! The I/O request descriptor that travels between the driving loop and the
//! execution engines.
//!
//! An `Op` owns its payload buffer outright, so handing it to an engine moves
//! the buffer with it; ownership comes back to the caller together with the
//! completed request.

use vstd::prelude::*;

use crate::aligned::AlignedBuf;

verus! {

/// A positioned read request: the engine fills `buf` from the target file at
/// byte offset `at`.
#[derive(Debug)]
pub struct Read {
    pub buf: AlignedBuf,
    pub at: u64,
}

/// A positioned write request: the engine writes `buf` to the target file at
/// byte offset `at`.
#[derive(Debug)]
pub struct Write {
    pub buf: AlignedBuf,
    pub at: u64,
}

/// The operation kind of a request, with its buffer and file offset.
#[derive(Debug)]
pub enum OpTy {
    Read(Read),
    Write(Write),
}

impl OpTy {
    /// The payload buffer's window lies inside its backing allocation.
    pub open spec fn wf(&self) -> bool {
        match self {
            OpTy::Read(r) => r.buf.wf(),
            OpTy::Write(w) => w.buf.wf(),
        }
    }

    /// The payload bytes of the request, whichever kind it is.
    pub open spec fn spec_buf(&self) -> Seq<u8> {
        match self {
            OpTy::Read(r) => r.buf@,
            OpTy::Write(w) => w.buf@,
        }
    }

    /// The file offset of the request, whichever kind it is.
    pub open spec fn spec_at(&self) -> u64 {
        match self {
            OpTy::Read(r) => r.at,
            OpTy::Write(w) => w.at,
        }
    }

    pub fn buf_ptr_and_len(&self) -> (r: (&AlignedBuf, usize))
        ensures
            r.0@ == self.spec_buf(),
            r.1 == self.spec_buf().len(),
    {
        match self {
            OpTy::Read(r) => (&r.buf, r.buf.len()),
            OpTy::Write(w) => (&w.buf, w.buf.len()),
        }
    }
}

/// A single I/O request with its result code, lifecycle timestamps (nanosecond
/// readings of a monotonic clock) and caller-assigned correlation data.
#[derive(Debug)]
pub struct Op {
    pub ty: OpTy,
    pub result: i32,
    pub created: Option<u64>,
    pub submitted: Option<u64>,
    pub retired: Option<u64>,
    pub user_data: u64,
}

impl Op {
    /// Fresh read request created at clock reading `now`.
    pub fn read(buf: AlignedBuf, at: u64, now: u64) -> (r: Op)
        ensures
            r.ty == (OpTy::Read(Read { buf: buf, at: at })),
            r.result == 0,
            r.created == Some(now),
            r.submitted is None,
            r.retired is None,
            r.user_data == 0,
    {
        Op {
            ty: OpTy::Read(Read { buf, at }),
            result: 0,
            created: Some(now),
            submitted: None,
            retired: None,
            user_data: 0,
        }
    }

    /// Fresh write request created at clock reading `now`.
    pub fn write(buf: AlignedBuf, at: u64, now: u64) -> (r: Op)
        ensures
            r.ty == (OpTy::Write(Write { buf: buf, at: at })),
            r.result == 0,
            r.created == Some(now),
            r.submitted is None,
            r.retired is None,
            r.user_data == 0,
    {
        Op {
            ty: OpTy::Write(Write { buf, at }),
            result: 0,
            created: Some(now),
            submitted: None,
            retired: None,
            user_data: 0,
        }
    }

    /// Note the time at which a worker accepted this op for execution.
    pub fn note_submitted(&mut self, now: u64)
        ensures
            final(self).submitted == Some(now),
            final(self).ty == old(self).ty,
            final(self).result == old(self).result,
            final(self).created == old(self).created,
            final(self).retired == old(self).retired,
            final(self).user_data == old(self).user_data,
    {
        self.submitted = Some(now);
    }

    /// Note the time at which this op finished execution.
    pub fn note_retired(&mut self, now: u64)
        ensures
            final(self).retired == Some(now),
            final(self).ty == old(self).ty,
            final(self).result == old(self).result,
            final(self).created == old(self).created,
            final(self).submitted == old(self).submitted,
            final(self).user_data == old(self).user_data,
    {
        self.retired = Some(now);
    }

    /// Consume the op, handing back its buffer and correlation data.
    pub fn into_buffer(self) -> (r: (AlignedBuf, u64))
        ensures
            r.0@ == self.ty.spec_buf(),
            r.0.wf() == self.ty.wf(),
            r.1 == self.user_data,
    {
        let user_data = self.user_data;
        match self.ty {
            OpTy::Read(r) => (r.buf, user_data),
            OpTy::Write(w) => (w.buf, user_data),
        }
    }
}

} // verus!
