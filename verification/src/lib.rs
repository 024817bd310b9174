//! The decision-making core of a worker that pulls code-change jobs from a
//! broker-backed reliable queue, runs an agent in a sandbox against a cloned
//! repository and publishes the result.
//!
//! Every component here is a pure protocol core: it turns a request into the
//! command to send to the outside world (the broker, the allocator, the git
//! remote, the sandbox) and turns the reply into an outcome. Nothing in this
//! crate performs I/O; a thin shell around it does.
//!
//! - [`queue`]: jobs, their records, and the commands and replies of the
//!   reliable queue; [`broker`]: the broker's lists as a model;
//!   [`memory_queue`]: the queue run against that model; [`delivery`]: the
//!   laws of delivery.
//! - [`instance`]: leases of endpoints and the guard that returns them once.
//! - [`git`]: the workspace of a job.
//! - [`agent`], [`mediator`], [`guest`], [`guest_binary`]: the sandbox, the
//!   host calls and their policy, and the guest's side of the boundary.
//! - [`worker`]: the steps of a job and the worker's loop; [`lifecycle`]:
//!   what holds of every job from its first step to its last.
//! - [`json`], [`endpoint`], [`http`]: records as JSON, URLs, and requests as
//!   plain values.

pub mod agent;
pub mod broker;
pub mod delivery;
pub mod endpoint;
pub mod git;
pub mod guest;
pub mod guest_binary;
pub mod http;
pub mod instance;
pub mod json;
pub mod lifecycle;
pub mod mediator;
pub mod memory_queue;
pub mod queue;
pub mod worker;
