//! What the join of a task of the runtime says about its work item.

use vstd::prelude::*;
use crate::content::Response;
use crate::dispatch::{Report, ReportView};

verus! {

/// The error with which `tokio` answers the join of a task that did not run
/// to its end: the task panicked, or it was cancelled. Nothing is claimed of
/// what is inside; the library only tells it apart from a payload.
#[verifier::external_type_specification]
#[verifier::external_body]
pub struct ExJoinError(tokio::task::JoinError);

/// Reads the result of a join. A payload is reported as returned; a join
/// error, of whatever cause, is reported as an abnormal end, so that it
/// reaches the caller as a failure and not as a response.
pub fn join_report(joined: Result<Response, tokio::task::JoinError>) -> (report: Report)
    ensures
        report@ == (match joined {
            Ok(response) => ReportView::Returned(response@),
            Err(_) => ReportView::Aborted,
        }),
{
    match joined {
        Ok(response) => Report::Returned(response),
        Err(_) => Report::Aborted,
    }
}

} // verus!
