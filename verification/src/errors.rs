//! The failure taxonomy of a test run, and the harness's response check.
//! Only a transient receive failure is retried (implicitly, by the polling
//! loop); every other failure is fatal.

use vstd::prelude::*;

use crate::payload::payload_matches;

verus! {

/// Everything that can go wrong in a run.
#[derive(Clone, Copy, Debug, PartialEq, Eq, Structural)]
pub enum FailureKind {
    /// Socket creation, join, or bind failed; aborts before any traffic.
    SetupFailure,
    /// A receive timed out or failed recoverably; retried by looping.
    TransientReceiveFailure,
    /// The listener could not answer a received probe.
    ResponseSendFailure,
    /// The received payload is not the expected one.
    ProtocolMismatch,
}

/// Whether a failure aborts the run. Only a transient receive failure does
/// not.
pub open spec fn is_fatal_spec(k: FailureKind) -> bool {
    k != FailureKind::TransientReceiveFailure
}

/// Whether a failure aborts the run, computed.
pub fn is_fatal(k: &FailureKind) -> (r: bool)
    ensures
        r == is_fatal_spec(*k),
{
    match k {
        FailureKind::TransientReceiveFailure => false,
        _ => true,
    }
}

/// The harness's assertion on the response it read back: success exactly
/// when the payload equals the expected one, a protocol mismatch otherwise.
pub fn check_response(expected: &Vec<u8>, got: &Vec<u8>) -> (r: Result<(), FailureKind>)
    ensures
        r is Ok <==> expected@ == got@,
        r is Err ==> r->Err_0 == FailureKind::ProtocolMismatch,
{
    if payload_matches(expected, got) {
        Ok(())
    } else {
        Err(FailureKind::ProtocolMismatch)
    }
}

} // verus!
