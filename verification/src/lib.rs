//! Supervision of a single sidecar process: the slot that owns the child's
//! handle, the relay of the child's output, the readiness probe against the
//! backend's health endpoint, and the shutdown that releases the handle once.
//!
//! Every function here is a decision on plain values. Spawning, sleeping,
//! sending requests and killing are left to the caller, which performs the
//! action a function returns and reports back what happened.

pub mod endpoint;
pub mod probe;
pub mod process;
pub mod relay;
pub mod shutdown;
pub mod supervisor;
