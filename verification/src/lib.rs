//! A worker-pool library: jobs are dispatched over a shared unbounded queue
//! to a fixed set of long-lived worker threads, with an explicit shutdown
//! protocol that terminates and joins every worker without leaking threads.

pub mod job;
pub mod queue;
pub mod response;
pub mod service_pool;
pub mod worker;
