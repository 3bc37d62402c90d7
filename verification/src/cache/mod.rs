//! The disk cache of job logs and the prefetching of logs.

pub mod log_cache;
pub mod prefetch;
