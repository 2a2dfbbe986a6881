use sshbridge::pool::{BufferManager, BufferPool};

#[test]
fn pool_checkout_never_exceeds_capacity() {
    let mgr = BufferManager::new(8);
    let mut pool = BufferPool::new(mgr, 2);
    assert_eq!(pool.capacity(), 2);
    assert_eq!(pool.outstanding(), 0);

    let a = pool.try_checkout().expect("first checkout fits");
    let b = pool.try_checkout().expect("second checkout fits");
    assert_eq!(pool.outstanding(), 2);
    assert!(pool.try_checkout().is_none(), "third checkout must be refused");
    assert_eq!(pool.outstanding(), 2);

    pool.release(a);
    assert_eq!(pool.outstanding(), 1);
    let c = pool.try_checkout().expect("after a release the pool has room");
    assert_eq!(pool.outstanding(), 2);
    pool.release(b);
    pool.release(c);
    assert_eq!(pool.outstanding(), 0);
}

#[test]
fn release_resets_length_and_keeps_capacity() {
    let mgr = BufferManager::new(4);
    let mut pool = BufferPool::new(mgr, 1);
    let mut buf = pool.try_checkout().unwrap();
    assert_eq!(buf.len(), 0);
    assert_eq!(buf.capacity(), 4);
    buf.append_bytes(&[1, 2, 3]);
    assert_eq!(buf.len(), 3);
    assert_eq!(buf.as_bytes(), &[1, 2, 3]);
    pool.release(buf);
    let again = pool.try_checkout().unwrap();
    assert_eq!(again.len(), 0, "a released buffer comes back empty");
    assert_eq!(again.capacity(), 4, "a released buffer keeps its capacity");
}

#[test]
fn manager_builds_empty_buffers_of_fixed_size() {
    let mgr = BufferManager::new(16);
    assert_eq!(mgr.size(), 16);
    let mut b = mgr.fresh();
    assert_eq!(b.len(), 0);
    assert_eq!(b.capacity(), 16);
    b.append_bytes(&[9; 16]);
    assert_eq!(b.len(), 16);
    mgr.recycle(&mut b);
    assert_eq!(b.len(), 0);
    assert_eq!(b.capacity(), 16);
}
