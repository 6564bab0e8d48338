//! The ways in which serving one request, or starting the service, can fail.
//!
//! No failure is retried. Each one is reported once, to whoever writes the
//! response or starts the process.

use vstd::prelude::*;

verus! {

/// Why a dispatched work item produced no payload.
#[derive(Clone, Copy, Debug, PartialEq, Eq, Structural)]
pub enum DispatchError {
    /// The thread or task that ran the item ended abnormally before it
    /// produced a result.
    JoinFailure,
    /// The blocking executor could not admit the item.
    CapacityExhaustion,
}

/// How far a failure reaches.
#[derive(Clone, Copy, Debug, PartialEq, Eq, Structural)]
pub enum Reach {
    /// One request fails; the service goes on with the others.
    Request,
    /// The whole process ends, before any request is served.
    Process,
}

/// Anything that fails in the service.
#[derive(Clone, Copy, Debug, PartialEq, Eq, Structural)]
pub enum ServiceError {
    /// A work item produced no payload.
    Dispatch(DispatchError),
    /// The listening socket could not be had when the service started.
    BindFailure,
}

impl DispatchError {
    /// The status code of the response that reports this error: both kinds
    /// are faults of the server.
    pub open spec fn spec_status(self) -> u16 {
        500
    }

    #[verifier::when_used_as_spec(spec_status)]
    pub fn status(self) -> (code: u16)
        ensures
            code == self.spec_status(),
    {
        500
    }
}

impl ServiceError {
    /// How far the failure reaches: a failed bind ends the process, any
    /// other failure ends one request.
    pub open spec fn spec_reach(self) -> Reach {
        match self {
            ServiceError::Dispatch(_) => Reach::Request,
            ServiceError::BindFailure => Reach::Process,
        }
    }

    #[verifier::when_used_as_spec(spec_reach)]
    pub fn reach(self) -> (reach: Reach)
        ensures
            reach == self.spec_reach(),
    {
        match self {
            ServiceError::Dispatch(_) => Reach::Request,
            ServiceError::BindFailure => Reach::Process,
        }
    }
}

} // verus!
