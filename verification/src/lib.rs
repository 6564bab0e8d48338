//! A dispatcher for blocking work inside a cooperative service runtime.
//!
//! A service runs its requests as tasks on a small, fixed set of driver
//! threads. A task that blocks holds its driver thread, and every other task
//! bound to that thread stands still meanwhile. This library decides where
//! the work of a request runs, so that blocking work does not starve the
//! service, and how the result comes back to the request.
//!
//! - [`work`] and [`content`]: work items and the responses they produce.
//! - [`policy`]: the three dispatch policies and what each of them costs.
//! - [`handoff`] and [`delivery`]: the handoff of one result to one caller,
//!   and the proof that the caller sees it exactly once.
//! - [`scheduler`] and [`starvation`]: the two pools of threads as counts,
//!   and the proof of which policies starve the service and which do not.
//! - [`timeline`]: the same on a logical clock, with the delay that each
//!   request sees.
//! - [`runtime`] and [`dispatch`]: the executing contexts, their tasks, and
//!   the dispatcher over them.
//! - [`router`], [`service`] and [`server`]: the routes, the work behind
//!   each, and the whole service with any number of requests in flight.
//! - [`join`] and [`error`]: what a failed join means, and the failures of
//!   the service.
//!
//! The library starts no thread and opens no socket. The program around it
//! does both, asks the library what to do with each request, and reports
//! back what happened.

pub mod content;
pub mod delivery;
pub mod dispatch;
pub mod error;
pub mod handoff;
pub mod join;
pub mod policy;
pub mod router;
pub mod runtime;
pub mod scheduler;
pub mod server;
pub mod service;
pub mod starvation;
pub mod timeline;
pub mod work;
