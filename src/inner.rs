//! The record that owns one native pool handle.
use vstd::prelude::*;

verus! {

/// The native pool handle and the queue size handed to collaborators.
///
/// `pool` is `None` when no native pool is held: either none was created or
/// it has already been torn down.
#[derive(Debug)]
pub struct InnerThreadPool {
    pub pool: Option<usize>,
    pub qsize: i32,
}

impl InnerThreadPool {
    /// Releases the handle: returns the native pool that the environment
    /// must now destroy, or `None` when there is nothing to destroy, and
    /// leaves the record without a handle. A second call returns `None`.
    pub fn teardown(&mut self) -> (r: Option<usize>)
        ensures
            r == old(self).pool,
            final(self).pool is None,
            final(self).qsize == old(self).qsize,
    {
        let r = self.pool.take();
        r
    }
}

} // verus!
