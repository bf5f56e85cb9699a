//! The shared pool: one native pool, counted by the handles that share it.
use vstd::prelude::*;

use crate::inner::InnerThreadPool;

verus! {

/// How many queue slots the pool gets for each worker thread.
pub const QUEUE_SLOTS_PER_THREAD: i32 = 1;

/// Why a pool could not be had.
#[derive(Debug, Clone, Copy, PartialEq, Eq, Structural)]
pub enum Error {
    /// The environment could not create the native pool.
    ThreadPool,
}

/// What a shared pool is, as a value: the native handle it holds (if any),
/// the queue size, and how many live handles share it.
pub ghost struct PoolModel {
    pub pool: Option<usize>,
    pub qsize: int,
    pub shares: nat,
}

/// A held handle is a non-null address, the queue size is never negative,
/// and a pool with no live handle holds no native pool.
pub open spec fn model_wf(m: PoolModel) -> bool {
    &&& m.pool matches Some(h) ==> h != 0
    &&& m.qsize >= 0
    &&& m.shares == 0 ==> m.pool is None
}

/// One more handle: the count goes up, nothing else changes.
pub open spec fn cloned(m: PoolModel) -> PoolModel {
    PoolModel { shares: m.shares + 1, ..m }
}

/// A handle goes away. With no live handle nothing happens. When the last
/// handle goes, the held native pool (if any) is the one to destroy, and the
/// model holds no handle afterwards.
pub open spec fn dropped(m: PoolModel) -> (PoolModel, Option<usize>) {
    if m.shares == 0 {
        (m, None)
    } else if m.shares == 1 {
        (PoolModel { pool: None, shares: 0, ..m }, m.pool)
    } else {
        (PoolModel { shares: (m.shares - 1) as nat, ..m }, None)
    }
}

/// The pool that a successful creation of `n_threads` workers yields from
/// the native handle `h`: one live handle, and the queue slots of all workers.
pub open spec fn created(n_threads: int, h: usize) -> PoolModel {
    PoolModel { pool: Some(h), qsize: n_threads * QUEUE_SLOTS_PER_THREAD, shares: 1 }
}

/// A shared native worker-thread pool.
///
/// `shares` counts the live handles. The native pool is destroyed exactly
/// when the count falls from one to zero; after that no handle is held.
#[derive(Debug)]
pub struct ThreadPool {
    handle: InnerThreadPool,
    shares: u64,
}

impl View for ThreadPool {
    type V = PoolModel;

    closed spec fn view(&self) -> PoolModel {
        PoolModel { pool: self.handle.pool, qsize: self.handle.qsize as int, shares: self.shares as nat }
    }
}

impl ThreadPool {
    /// The pool's model is well formed.
    pub open spec fn wf(&self) -> bool {
        model_wf(self@)
    }

    /// Builds the pool from what the environment's creation of `n_threads`
    /// workers returned: the address of the native pool, `0` when creation
    /// failed. On success the pool has one handle and `n_threads` queue slots.
    pub fn new(n_threads: u32, created_at: usize) -> (r: Result<ThreadPool, Error>)
        requires
            n_threads <= i32::MAX,
        ensures
            created_at == 0 <==> r is Err,
            r matches Err(e) ==> e == Error::ThreadPool,
            r matches Ok(p) ==> p.wf() && p@ == created(n_threads as int, created_at),
    {
        if created_at == 0 {
            Err(Error::ThreadPool)
        } else {
            let qsize: i32 = n_threads as i32 * QUEUE_SLOTS_PER_THREAD;
            let handle = InnerThreadPool { pool: Some(created_at), qsize };
            Ok(ThreadPool { handle, shares: 1 })
        }
    }

    /// Makes one more handle to the same native pool. The environment is
    /// not involved; only the count of live handles goes up.
    pub fn clone_handle(&mut self)
        requires
            old(self).wf(),
            old(self)@.shares >= 1,
            old(self)@.shares < u64::MAX,
        ensures
            final(self).wf(),
            final(self)@ == cloned(old(self)@),
    {
        self.shares = self.shares + 1;
    }

    /// Lets one handle go. Returns the native pool that the environment must
    /// destroy now, which happens only when the last live handle goes; with
    /// no live handle left it does nothing and returns `None`.
    pub fn drop_handle(&mut self) -> (r: Option<usize>)
        requires
            old(self).wf(),
        ensures
            final(self).wf(),
            (final(self)@, r) == dropped(old(self)@),
    {
        if self.shares == 0 {
            None
        } else {
            self.shares = self.shares - 1;
            if self.shares == 0 {
                self.handle.teardown()
            } else {
                None
            }
        }
    }

    /// The native pool that a collaborator should use, while a handle is live.
    pub fn native_handle(&self) -> (r: Option<usize>)
        ensures
            r == self@.pool,
    {
        self.handle.pool
    }

    /// The queue size that a collaborator should use with the native pool.
    pub fn queue_size(&self) -> (r: i32)
        ensures
            r as int == self@.qsize,
    {
        self.handle.qsize
    }

    /// The number of live handles.
    pub fn shares(&self) -> (r: u64)
        ensures
            r as nat == self@.shares,
    {
        self.shares
    }
}

} // verus!
