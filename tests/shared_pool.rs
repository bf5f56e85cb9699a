use tpool::inner::InnerThreadPool;
use tpool::pool::{Error, ThreadPool};

#[test]
fn four_threads_cloned_twice_destroyed_once() {
    let mut pool = ThreadPool::new(4, 0x1000).unwrap();
    assert_eq!(pool.queue_size(), 4);
    assert_eq!(pool.native_handle(), Some(0x1000));
    pool.clone_handle();
    pool.clone_handle();
    assert_eq!(pool.shares(), 3);
    let mut destroyed: Vec<usize> = Vec::new();
    for _ in 0..2 {
        if let Some(h) = pool.drop_handle() {
            destroyed.push(h);
        }
    }
    assert!(destroyed.is_empty());
    assert_eq!(pool.native_handle(), Some(0x1000));
    if let Some(h) = pool.drop_handle() {
        destroyed.push(h);
    }
    assert_eq!(destroyed, vec![0x1000]);
    assert_eq!(pool.native_handle(), None);
    assert_eq!(pool.shares(), 0);
}

#[test]
fn null_from_environment_is_creation_failure() {
    let r = ThreadPool::new(4, 0);
    assert!(matches!(r, Err(Error::ThreadPool)));
}

#[test]
fn failure_for_any_thread_count() {
    for n in [0u32, 1, 8, i32::MAX as u32] {
        assert!(matches!(ThreadPool::new(n, 0), Err(Error::ThreadPool)));
    }
}

#[test]
fn success_keeps_handle_and_one_slot_per_thread() {
    for n in [1u32, 2, 7, 64, i32::MAX as u32] {
        let pool = ThreadPool::new(n, 0xdead_beef).unwrap();
        assert_eq!(pool.native_handle(), Some(0xdead_beef));
        assert_eq!(pool.queue_size(), n as i32);
        assert_eq!(pool.shares(), 1);
    }
}

#[test]
fn single_handle_dropped_destroys_its_pool() {
    let mut pool = ThreadPool::new(2, 42).unwrap();
    assert_eq!(pool.drop_handle(), Some(42));
}

#[test]
fn dropping_after_last_handle_does_nothing() {
    let mut pool = ThreadPool::new(3, 77).unwrap();
    assert_eq!(pool.drop_handle(), Some(77));
    assert_eq!(pool.drop_handle(), None);
    assert_eq!(pool.drop_handle(), None);
    assert_eq!(pool.shares(), 0);
    assert_eq!(pool.queue_size(), 3);
}

#[test]
fn many_clones_one_destroy_at_the_end() {
    let mut pool = ThreadPool::new(16, 0x5000).unwrap();
    let n = 100;
    for _ in 0..n {
        pool.clone_handle();
    }
    assert_eq!(pool.shares(), n + 1);
    let mut destroyed = Vec::new();
    for i in 0..(n + 1) {
        if let Some(h) = pool.drop_handle() {
            destroyed.push((i, h));
        }
    }
    assert_eq!(destroyed, vec![(n, 0x5000)]);
}

#[test]
fn interleaved_clones_and_drops_destroy_at_most_once() {
    let mut pool = ThreadPool::new(4, 9).unwrap();
    let mut destroyed = 0;
    pool.clone_handle();
    if pool.drop_handle().is_some() {
        destroyed += 1;
    }
    pool.clone_handle();
    pool.clone_handle();
    for _ in 0..5 {
        if pool.drop_handle().is_some() {
            destroyed += 1;
        }
    }
    assert_eq!(destroyed, 1);
}

#[test]
fn inner_teardown_twice_gives_handle_once() {
    let mut inner = InnerThreadPool { pool: Some(0x2000), qsize: 4 };
    assert_eq!(inner.teardown(), Some(0x2000));
    assert_eq!(inner.pool, None);
    assert_eq!(inner.teardown(), None);
    assert_eq!(inner.qsize, 4);
}

#[test]
fn inner_teardown_without_pool() {
    let mut inner = InnerThreadPool { pool: None, qsize: 0 };
    assert_eq!(inner.teardown(), None);
}
