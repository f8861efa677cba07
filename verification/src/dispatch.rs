//! The dispatch engine: one method per caller intent, each composing a
//! program, wrapping it in version tags, and deciding between local
//! execution and remote transmission.
//!
//! The consensus host that performs the chosen operation is a black box to
//! this module.  An intent method returns the full request handed to it; the
//! completion functions take the host's answer back and map its failure
//! codes onto the caller-facing error type.

use vstd::prelude::*;
use crate::Balance;
use crate::envelope::{VersionedLocation, VersionedXcm};
use crate::error::{HostError, RuntimeError, recognized};
use crate::location::{AccountId, AssetRoot, Location, is_parent, is_sibling};
use crate::program::{
    funded_call_message, funded_call_shape, send_funds_message, send_funds_shape,
    transfer_message, transfer_shape,
};

verus! {

/// A fixed-size content identifier of a submitted program: the receipt of a
/// remote send, acknowledging submission, not delivery or execution.
pub type XcmHash = [u8; 32];

/// Numeric id of the well-known asset-hub sibling system targeted by the
/// `_ah` intents.
pub const ASSET_HUB_ID: u32 = 1000;

/// What one intent asks the host to do, the two operations being mutually
/// exclusive per call.
#[derive(Clone, Debug, PartialEq, Eq)]
pub enum DispatchRequest {
    /// Execute the program in the local VM, blocking until it finishes.
    ExecuteLocal(VersionedXcm),
    /// Enqueue the program for asynchronous transmission to the destination.
    SendRemote { destination: VersionedLocation, message: VersionedXcm },
}

/// The message-composition facade.  It holds no state: every entity built
/// here lives within a single call, and the only durable state, the caller's
/// off-module balance, is touched by the host alone.
#[derive(Debug, PartialEq, Eq)]
pub struct XcmComplete;

impl Default for XcmComplete {
    /// The empty facade value.
    fn default() -> (s: Self)
        ensures
            s == XcmComplete,
    {
        XcmComplete
    }
}

impl XcmComplete {
    /// A fresh facade.  Its on-chain account is pre-funded by the host at
    /// instantiation; nothing is stored in the value itself.
    pub fn new() -> (s: Self)
        ensures
            s == XcmComplete,
    {
        Default::default()
    }

    /// Move `value` of the parent-rooted asset to the receiver's account,
    /// by local execution.
    pub fn transfer_through_xcm(&self, receiver: AccountId, value: Balance) -> (r:
        DispatchRequest)
        requires
            value > 0,
        ensures
            r matches DispatchRequest::ExecuteLocal(VersionedXcm::V4(m))
                && transfer_shape(m@, receiver, value),
    {
        let message = transfer_message(receiver, value);
        DispatchRequest::ExecuteLocal(VersionedXcm::wrap(message))
    }

    /// Send the parent system a call funded from the asset rooted there
    /// (`Here` from the parent's point of view is this module's asset on it).
    pub fn generic_execute(
        &self,
        encoded_extrinsic: Vec<u8>,
        fee_max: Balance,
        ref_time: u64,
        proof_size: u64,
    ) -> (r: DispatchRequest)
        requires
            fee_max > 0,
            encoded_extrinsic@.len() > 0,
        ensures
            r matches DispatchRequest::SendRemote {
                destination: VersionedLocation::V4(d),
                message: VersionedXcm::V4(m),
            } && is_parent(d)
                && funded_call_shape(
                m@,
                AssetRoot::Here,
                fee_max,
                ref_time,
                proof_size,
                encoded_extrinsic@,
            ),
    {
        let message = funded_call_message(
            AssetRoot::Here,
            encoded_extrinsic,
            fee_max,
            ref_time,
            proof_size,
        );
        DispatchRequest::SendRemote {
            destination: VersionedLocation::wrap(Location::parent()),
            message: VersionedXcm::wrap(message),
        }
    }

    /// Send the asset-hub sibling a call funded from the parent-rooted
    /// asset.
    pub fn generic_execute_ah(
        &self,
        encoded_extrinsic: Vec<u8>,
        fee_max: Balance,
        ref_time: u64,
        proof_size: u64,
    ) -> (r: DispatchRequest)
        requires
            fee_max > 0,
            encoded_extrinsic@.len() > 0,
        ensures
            r matches DispatchRequest::SendRemote {
                destination: VersionedLocation::V4(d),
                message: VersionedXcm::V4(m),
            } && is_sibling(d, ASSET_HUB_ID)
                && funded_call_shape(
                m@,
                AssetRoot::Parent,
                fee_max,
                ref_time,
                proof_size,
                encoded_extrinsic@,
            ),
    {
        let message = funded_call_message(
            AssetRoot::Parent,
            encoded_extrinsic,
            fee_max,
            ref_time,
            proof_size,
        );
        DispatchRequest::SendRemote {
            destination: VersionedLocation::wrap(Location::sibling(ASSET_HUB_ID)),
            message: VersionedXcm::wrap(message),
        }
    }

    /// Execute a call locally, funded from the parent-rooted asset: the same
    /// program as a funded remote call, dispatched in this module's own
    /// execution context.
    pub fn generic_execute_local(
        &self,
        encoded_extrinsic: Vec<u8>,
        fee_max: Balance,
        ref_time: u64,
        proof_size: u64,
    ) -> (r: DispatchRequest)
        requires
            fee_max > 0,
            encoded_extrinsic@.len() > 0,
        ensures
            r matches DispatchRequest::ExecuteLocal(VersionedXcm::V4(m)) && funded_call_shape(
                m@,
                AssetRoot::Parent,
                fee_max,
                ref_time,
                proof_size,
                encoded_extrinsic@,
            ),
    {
        let message = funded_call_message(
            AssetRoot::Parent,
            encoded_extrinsic,
            fee_max,
            ref_time,
            proof_size,
        );
        DispatchRequest::ExecuteLocal(VersionedXcm::wrap(message))
    }

    /// Repatriate `value` held by this module's derivative account on the
    /// parent system back to the caller, buying execution with `fee`.  The
    /// beneficiary is always the calling account, whose id the host reports.
    pub fn send_funds(&self, value: Balance, fee: Balance, caller: AccountId) -> (r:
        DispatchRequest)
        requires
            value > 0,
            fee > 0,
        ensures
            r matches DispatchRequest::SendRemote {
                destination: VersionedLocation::V4(d),
                message: VersionedXcm::V4(m),
            } && is_parent(d)
                && send_funds_shape(m@, AssetRoot::Here, value, fee, caller),
    {
        let message = send_funds_message(AssetRoot::Here, value, fee, caller);
        DispatchRequest::SendRemote {
            destination: VersionedLocation::wrap(Location::parent()),
            message: VersionedXcm::wrap(message),
        }
    }

    /// Repatriate `value` held on the asset-hub sibling back to the caller,
    /// buying execution with `fee` of the parent-rooted asset.
    pub fn send_funds_ah(&self, value: Balance, fee: Balance, caller: AccountId) -> (r:
        DispatchRequest)
        requires
            value > 0,
            fee > 0,
        ensures
            r matches DispatchRequest::SendRemote {
                destination: VersionedLocation::V4(d),
                message: VersionedXcm::V4(m),
            } && is_sibling(d, ASSET_HUB_ID)
                && send_funds_shape(m@, AssetRoot::Parent, value, fee, caller),
    {
        let message = send_funds_message(AssetRoot::Parent, value, fee, caller);
        DispatchRequest::SendRemote {
            destination: VersionedLocation::wrap(Location::sibling(ASSET_HUB_ID)),
            message: VersionedXcm::wrap(message),
        }
    }
}

/// Map the host's answer to a local execution: success passes through,
/// either recognized failure code maps to its own error variant.
pub fn complete_execute(host: Result<(), HostError>) -> (r: Result<(), RuntimeError>)
    requires
        host matches Err(e) ==> recognized(e),
    ensures
        r is Ok <==> host is Ok,
        host matches Err(e) ==> r matches Err(re)
            && (re is XcmExecuteFailed <==> e is XcmExecutionFailed)
            && (re is XcmSendFailed <==> e is XcmSendFailed),
{
    match host {
        Ok(()) => Ok(()),
        Err(e) => Err(RuntimeError::from(e)),
    }
}

/// Map the host's answer to a remote send: the submission hash passes
/// through unchanged, either recognized failure code maps to its own error
/// variant.
pub fn complete_send(host: Result<XcmHash, HostError>) -> (r: Result<XcmHash, RuntimeError>)
    requires
        host matches Err(e) ==> recognized(e),
    ensures
        r is Ok <==> host is Ok,
        host matches Ok(h) ==> r == Result::<XcmHash, RuntimeError>::Ok(h),
        host matches Err(e) ==> r matches Err(re)
            && (re is XcmExecuteFailed <==> e is XcmExecutionFailed)
            && (re is XcmSendFailed <==> e is XcmSendFailed),
{
    match host {
        Ok(h) => Ok(h),
        Err(e) => Err(RuntimeError::from(e)),
    }
}

} // verus!
