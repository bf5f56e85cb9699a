//! Shared ownership of one native worker-thread pool.
//!
//! The native pool is created and destroyed by the environment. This library
//! holds the decisions around it: whether a creation succeeded, how many
//! handles share the pool, and when (exactly once) it has to be destroyed.
pub mod inner;
pub mod laws;
pub mod pool;

pub use inner::InnerThreadPool;
pub use pool::{Error, ThreadPool};
