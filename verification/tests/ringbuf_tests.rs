use iobench::ringbuf::{Inner, RingBuf};

#[test]
fn inner_is_first_in_first_out() {
    let mut q: Inner<u32> = Inner::new(4);
    assert_eq!(q.len(), 0);
    assert_eq!(q.push(10), Ok(()));
    assert_eq!(q.push(20), Ok(()));
    assert_eq!(q.push(30), Ok(()));
    assert_eq!(q.len(), 3);
    assert_eq!(q.pop(), Some(10));
    assert_eq!(q.pop(), Some(20));
    assert_eq!(q.push(40), Ok(()));
    assert_eq!(q.pop(), Some(30));
    assert_eq!(q.pop(), Some(40));
    assert_eq!(q.pop(), None);
}

#[test]
fn inner_full_returns_the_value() {
    let mut q: Inner<u32> = Inner::new(2);
    assert_eq!(q.push(1), Ok(()));
    assert_eq!(q.push(2), Ok(()));
    assert_eq!(q.push(3), Err(3));
    assert_eq!(q.cap(), 2);
    assert_eq!(q.len(), 2);
}

#[test]
fn inner_zero_capacity_rejects_everything() {
    let mut q: Inner<u32> = Inner::new(0);
    assert_eq!(q.push(1), Err(1));
    assert_eq!(q.pop(), None);
}

#[test]
fn handles_share_one_queue() {
    let rb: RingBuf<u64> = RingBuf::new(2);
    let mut p = rb.producer();
    let mut c = rb.consumer();
    assert_eq!(p.cap(), 2);
    assert!(c.is_empty());
    assert_eq!(p.push(5), Ok(()));
    assert_eq!(p.push(6), Ok(()));
    assert_eq!(p.push(7), Err(7));
    assert_eq!(p.len(), 2);
    assert_eq!(c.len(), 2);
    assert_eq!(c.pop(), Some(5));
    assert_eq!(c.pop(), Some(6));
    assert_eq!(c.pop(), None);
    assert!(c.is_empty());
}
