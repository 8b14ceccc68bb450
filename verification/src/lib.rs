//! A fixed-size worker-thread pool: jobs submitted by any number of
//! producers are each executed exactly once on one of a bounded set of
//! long-lived worker threads, with deterministic shutdown.
//!
//! The pool is the core; `route` holds the one decision the surrounding
//! HTTP glue takes, the mapping from a request line to a canned response.

mod jobs;
pub mod pool;
mod queue;
pub mod route;

pub use pool::ConstructionError;
pub use pool::ThreadPool;
pub use route::Route;
