use iobench::aligned::AlignedBuf;
use iobench::memfile::apply_op;
use iobench::op::{Op, OpTy};

#[test]
fn write_then_read_round_trips() {
    let mut file = vec![0u8; 8192];
    let payload: Vec<u8> = (0..512).map(|i| (i % 251) as u8).collect();
    let mut wop = Op::write(AlignedBuf::from_bytes(&payload, 512), 1024, 0);
    apply_op(&mut file, &mut wop);
    assert_eq!(wop.result, 512);

    let mut rop = Op::read(AlignedBuf::zeroed(512, 512), 1024, 0);
    apply_op(&mut file, &mut rop);
    assert_eq!(rop.result, 512);
    match rop.ty {
        OpTy::Read(r) => assert_eq!(r.buf.to_vec(), payload),
        OpTy::Write(_) => panic!("read op must stay a read"),
    }
}

#[test]
fn write_leaves_other_bytes_untouched() {
    let mut file = vec![7u8; 2048];
    let payload = vec![1u8; 512];
    let mut wop = Op::write(AlignedBuf::from_bytes(&payload, 512), 512, 0);
    apply_op(&mut file, &mut wop);
    assert!(file[..512].iter().all(|&b| b == 7));
    assert!(file[512..1024].iter().all(|&b| b == 1));
    assert!(file[1024..].iter().all(|&b| b == 7));
}

#[test]
fn apply_op_preserves_correlation_data() {
    let mut file = vec![0u8; 1024];
    let mut op = Op::read(AlignedBuf::zeroed(256, 512), 0, 42);
    op.user_data = 77;
    apply_op(&mut file, &mut op);
    assert_eq!(op.user_data, 77);
    assert_eq!(op.created, Some(42));
}

#[test]
fn op_constructors_set_lifecycle_fields() {
    let mut op = Op::read(AlignedBuf::zeroed(16, 512), 4096, 5);
    assert_eq!(op.created, Some(5));
    assert_eq!(op.submitted, None);
    assert_eq!(op.retired, None);
    assert_eq!(op.result, 0);
    assert_eq!(op.user_data, 0);
    op.note_submitted(6);
    op.note_retired(9);
    assert_eq!(op.submitted, Some(6));
    assert_eq!(op.retired, Some(9));

    let wop = Op::write(AlignedBuf::from_bytes(&vec![3u8; 16], 512), 8192, 7);
    let (buf_ref, len) = wop.ty.buf_ptr_and_len();
    assert_eq!(len, 16);
    assert_eq!(buf_ref.len(), 16);
    let (buf, ud) = wop.into_buffer();
    assert_eq!(buf.to_vec(), vec![3u8; 16]);
    assert_eq!(ud, 0);
}

#[test]
fn aligned_buffer_window_starts_on_the_boundary() {
    let buf = AlignedBuf::zeroed(4096, 4096);
    let addr = buf.data.as_ptr() as usize + buf.start;
    assert_eq!(addr % 4096, 0);
    assert_eq!(buf.len(), 4096);
    let copy = AlignedBuf::from_bytes(&vec![9u8; 600], 512);
    let addr2 = copy.data.as_ptr() as usize + copy.start;
    assert_eq!(addr2 % 512, 0);
    assert_eq!(copy.to_vec(), vec![9u8; 600]);
}
