//! The failure policy: which failures a tick may absorb and which must stop
//! the process.

use vstd::prelude::*;

use crate::client::ApiError;

verus! {

/// What to do with a failure.
#[derive(Clone, Copy, Debug, PartialEq, Eq, Structural)]
pub enum Disposition {
    /// Log it; the next tick retries naturally.
    Ignorable,
    /// Report it on the process-wide error channel and exit with status 1.
    Fatal,
}

/// A failure is ignorable exactly when the service was transiently
/// unreachable: the exchange timed out, could not connect, or failed while
/// sending the request.
pub open spec fn is_ignorable(e: ApiError) -> bool {
    e matches ApiError::Transport { timeout, connect, request, .. } && (timeout || connect
        || request)
}

pub fn classify(e: &ApiError) -> (r: Disposition)
    ensures
        r == (if is_ignorable(*e) {
            Disposition::Ignorable
        } else {
            Disposition::Fatal
        }),
{
    match e {
        ApiError::Transport { timeout, connect, request, .. } => {
            if *timeout || *connect || *request {
                Disposition::Ignorable
            } else {
                Disposition::Fatal
            }
        },
        _ => Disposition::Fatal,
    }
}

/// Exit status of a process that stops on a fatal failure.
pub fn exit_code(d: Disposition) -> (r: Option<i32>)
    ensures
        d is Fatal ==> r == Some(1i32),
        d is Ignorable ==> r is None,
{
    match d {
        Disposition::Ignorable => None,
        Disposition::Fatal => Some(1),
    }
}

} // verus!
