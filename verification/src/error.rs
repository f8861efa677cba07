//! The closed error taxonomy surfaced to callers, and the mapping from the
//! host's failure codes onto it.

use vstd::prelude::*;
use vstd::pervasive::unreached;

verus! {

/// A failure code surfaced by the consensus host at the execute/send
/// boundary.  Only the first two codes are recognized by this module; any
/// other host failure is an integration-contract breach that the glue around
/// the library aborts on instead of mapping.
#[derive(Clone, Copy, Debug, PartialEq, Eq)]
pub enum HostError {
    /// The host VM rejected or failed to execute the program.
    XcmExecutionFailed,
    /// The program could not be enqueued for transmission.
    XcmSendFailed,
    /// Any other host-side failure code.
    Other,
}

/// The host failure code is one of the two this module recognizes.
pub open spec fn recognized(e: HostError) -> bool {
    e is XcmExecutionFailed || e is XcmSendFailed
}

/// The terminal error a caller sees.  Exactly two variants exist, one per
/// recognized host failure code: an unrecognized code has no representation
/// here and aborts before a value of this type is formed.
#[derive(Clone, Copy, Debug, PartialEq, Eq)]
pub enum RuntimeError {
    /// Local execution was rejected or failed in the host VM.
    XcmExecuteFailed,
    /// The message could not be enqueued for remote transmission.
    XcmSendFailed,
}

impl RuntimeError {
    /// Translate a recognized host failure code, each code to its own
    /// variant and to no other.
    pub fn from(e: HostError) -> (r: RuntimeError)
        requires
            recognized(e),
        ensures
            r is XcmExecuteFailed <==> e is XcmExecutionFailed,
            r is XcmSendFailed <==> e is XcmSendFailed,
    {
        match e {
            HostError::XcmExecutionFailed => RuntimeError::XcmExecuteFailed,
            HostError::XcmSendFailed => RuntimeError::XcmSendFailed,
            HostError::Other => unreached(),
        }
    }
}

} // verus!
