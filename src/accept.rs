use vstd::prelude::*;
use crate::io_kind::IoErrorKind;

verus! {

/// What the accept loop does with the outcome of one accept call.
#[derive(Clone, Copy, Debug, PartialEq, Eq, Structural)]
pub enum AcceptDecision {
    /// Hand the new connection to a session of its own and accept again.
    StartSession,
    /// Log the error and accept again.
    LogAndContinue,
    /// The listener is no longer usable: leave the loop.
    Stop,
}

/// The accept errors that mean the listener itself is gone (it is closed or
/// no longer listening), rather than one failed connection.
pub open spec fn listener_gone(kind: IoErrorKind) -> bool {
    kind == IoErrorKind::InvalidInput || kind == IoErrorKind::NotConnected
}

pub open spec fn accept_decision(r: Result<(), IoErrorKind>) -> AcceptDecision {
    match r {
        Ok(()) => AcceptDecision::StartSession,
        Err(kind) => if listener_gone(kind) {
            AcceptDecision::Stop
        } else {
            AcceptDecision::LogAndContinue
        },
    }
}

/// Decides what follows one accept call: `Ok` when a connection came in,
/// else the kind of error. Only an error of the listener itself ends the
/// loop; the decision never waits on any session.
pub fn on_accept(r: Result<(), IoErrorKind>) -> (d: AcceptDecision)
    ensures
        d == accept_decision(r),
{
    match r {
        Ok(()) => AcceptDecision::StartSession,
        Err(kind) => if kind == IoErrorKind::InvalidInput || kind == IoErrorKind::NotConnected {
            AcceptDecision::Stop
        } else {
            AcceptDecision::LogAndContinue
        },
    }
}

/// A failed connection (reset, aborted, refused, timed out, interrupted or
/// would block) never ends the accept loop.
pub proof fn lemma_transient_errors_continue(kind: IoErrorKind)
    requires
        kind == IoErrorKind::ConnectionReset || kind == IoErrorKind::ConnectionAborted || kind
            == IoErrorKind::ConnectionRefused || kind == IoErrorKind::TimedOut || kind
            == IoErrorKind::Interrupted || kind == IoErrorKind::WouldBlock,
    ensures
        accept_decision(Err(kind)) == AcceptDecision::LogAndContinue,
{
}

} // verus!
