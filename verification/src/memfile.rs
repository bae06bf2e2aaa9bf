//! Byte-level model of the target file, and the memory-copy execution of a
//! request against an in-memory region.
//!
//! The memory-mapped engine executes a request by a plain copy between the
//! request's buffer and the mapped region; `apply_op` is that copy, stated and
//! proved over an owned byte region. The worker that drives the real mapping
//! mirrors it byte for byte.

use vstd::prelude::*;

use crate::op::{Op, OpTy};

verus! {

/// The file contents after writing `data` at byte offset `at`.
pub open spec fn store_bytes(file: Seq<u8>, at: int, data: Seq<u8>) -> Seq<u8> {
    file.map(|i: int, b: u8| if at <= i < at + data.len() { data[i - at] } else { b })
}

/// The `len` bytes of the file starting at byte offset `at`.
pub open spec fn load_bytes(file: Seq<u8>, at: int, len: int) -> Seq<u8> {
    file.subrange(at, at + len)
}

/// Writing a payload to an offset and then reading the same range back yields
/// the payload unchanged.
pub proof fn lemma_store_load_roundtrip(file: Seq<u8>, at: int, data: Seq<u8>)
    requires
        0 <= at,
        at + data.len() <= file.len(),
    ensures
        load_bytes(store_bytes(file, at, data), at, data.len() as int) =~= data,
{
}

/// Writing one range leaves every byte outside that range unchanged.
pub proof fn lemma_store_preserves_rest(file: Seq<u8>, at: int, data: Seq<u8>, i: int)
    requires
        0 <= i < file.len(),
        i < at || at + data.len() <= i,
    ensures
        store_bytes(file, at, data)[i] == file[i],
{
}

/// Execute a request against an in-memory byte region: a write copies the
/// op's buffer into the region, a read fills the op's buffer from it. The
/// result code is set to the number of bytes moved, as a positioned I/O call
/// would report. Timestamps and correlation data are untouched.
pub fn apply_op(file: &mut Vec<u8>, op: &mut Op)
    requires
        old(op).ty.wf(),
        old(op).ty.spec_at() + old(op).ty.spec_buf().len() <= old(file)@.len(),
        old(op).ty.spec_buf().len() <= i32::MAX,
    ensures
        final(op).ty.wf(),
        final(op).ty.spec_at() == old(op).ty.spec_at(),
        final(op).ty.spec_buf().len() == old(op).ty.spec_buf().len(),
        final(op).result == old(op).ty.spec_buf().len(),
        final(op).created == old(op).created,
        final(op).submitted == old(op).submitted,
        final(op).retired == old(op).retired,
        final(op).user_data == old(op).user_data,
        final(file)@.len() == old(file)@.len(),
        old(op).ty is Write ==> {
            &&& final(op).ty == old(op).ty
            &&& final(file)@ == store_bytes(
                old(file)@,
                old(op).ty.spec_at() as int,
                old(op).ty.spec_buf(),
            )
        },
        old(op).ty is Read ==> {
            &&& final(op).ty is Read
            &&& final(op).ty.spec_buf() == load_bytes(
                old(file)@,
                old(op).ty.spec_at() as int,
                old(op).ty.spec_buf().len() as int,
            )
            &&& final(file)@ == old(file)@
        },
{
    let ghost file0 = file@;
    match &mut op.ty {
        OpTy::Read(r) => {
            let flen = file.len();
            let at = r.at as usize;
            let len = r.buf.len();
            let mut j: usize = 0;
            while j < len
                invariant
                    r.buf.wf(),
                    r.at == old(op).ty.spec_at(),
                    at == r.at,
                    len == r.buf@.len(),
                    at + len <= file@.len(),
                    at + len <= usize::MAX,
                    file@ == file0,
                    0 <= j <= len,
                    forall|k: int|
                        0 <= k < j ==> r.buf@[k] == file@[at + k],
                decreases len - j,
            {
                let b = file[at + j];
                r.buf.set(j, b);
                j = j + 1;
            }
            proof {
                assert(r.buf@ =~= load_bytes(file0, at as int, len as int));
            }
            op.result = len as i32;
        },
        OpTy::Write(w) => {
            let flen = file.len();
            let at = w.at as usize;
            let len = w.buf.len();
            let mut j: usize = 0;
            while j < len
                invariant
                    w.buf.wf(),
                    w.at == old(op).ty.spec_at(),
                    at == w.at,
                    len == w.buf@.len(),
                    w.buf@ == old(op).ty.spec_buf(),
                    at + len <= file@.len(),
                    at + len <= usize::MAX,
                    file@.len() == file0.len(),
                    at + len <= file0.len(),
                    0 <= j <= len,
                    forall|k: int|
                        0 <= k < j ==> file@[at + k] == w.buf@[k],
                    forall|k: int|
                        0 <= k < file@.len() && !(at <= k < at + j) ==> file@[k] == file0[k],
                decreases len - j,
            {
                let b = w.buf.get(j);
                file[at + j] = b;
                j = j + 1;
            }
            proof {
                assert(file@ =~= store_bytes(file0, at as int, w.buf@));
            }
            op.result = len as i32;
        },
    }
}

} // verus!
