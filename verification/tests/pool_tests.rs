use iobench::pool::BufPool;

#[test]
fn fresh_pool_mints_sequential_handles() {
    let mut pool = BufPool::new(512);
    let (i0, b0) = pool.checkout();
    let (i1, b1) = pool.checkout();
    let (i2, _b2) = pool.checkout();
    assert_eq!(b0.len(), 512);
    assert_eq!(b1.len(), 512);
    assert_ne!(i0, i1);
    assert_ne!(i0, i2);
    assert_ne!(i1, i2);
    assert_eq!(pool.slots(), 3);
}

#[test]
fn fresh_buffers_are_zeroed() {
    let mut pool = BufPool::new(4096);
    let (_i, b) = pool.checkout();
    assert!(b.to_vec().iter().all(|&x| x == 0));
}

#[test]
fn pool_buffers_are_block_aligned() {
    let mut pool = BufPool::new(4096);
    let (_i, b) = pool.checkout();
    let addr = b.data.as_ptr() as usize + b.start;
    assert_eq!(addr % 4096, 0);
}

#[test]
fn no_live_handle_is_handed_out_twice() {
    let mut pool = BufPool::new(512);
    let mut live: Vec<usize> = Vec::new();
    for _ in 0..32 {
        let (i, _b) = pool.checkout();
        assert!(!live.iter().any(|&j| j == i));
        live.push(i);
    }
}

#[test]
fn release_makes_a_handle_reusable() {
    let mut pool = BufPool::new(512);
    let (i0, b0) = pool.checkout();
    assert!(pool.is_live(i0));
    pool.release(i0, b0);
    assert!(!pool.is_live(i0));
    let (i1, _b1) = pool.checkout();
    // The freed handle is reused rather than a new one minted.
    assert_eq!(i1, i0);
    assert_eq!(pool.slots(), 1);
}

#[test]
fn is_live_tracks_checkouts() {
    let mut pool = BufPool::new(512);
    assert!(!pool.is_live(0));
    let (i0, b0) = pool.checkout();
    let (i1, b1) = pool.checkout();
    assert!(pool.is_live(i0));
    assert!(pool.is_live(i1));
    pool.release(i0, b0);
    assert!(!pool.is_live(i0));
    assert!(pool.is_live(i1));
    pool.release(i1, b1);
    assert!(!pool.is_live(i1));
}

#[test]
fn buf_len_reports_block_size() {
    let pool = BufPool::new(8192);
    assert_eq!(pool.buf_len(), 8192);
}
