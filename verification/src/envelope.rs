//! Version-tagged envelopes handed across the host boundary.
//!
//! A just-built program, and when sending a destination location, are wrapped
//! in explicit version tags so the receiving host can decode them regardless
//! of its own negotiated protocol version.  Wrapping is purely structural: no
//! validation happens here, and unwrapping gives back exactly what was
//! wrapped.

use vstd::prelude::*;
use crate::location::Location;
use crate::program::Xcm;

verus! {

/// The protocol version this module emits: fixed, not negotiated.
pub const XCM_VERSION: u32 = 4;

/// A program wrapped in its version tag.
#[derive(Clone, Debug, PartialEq, Eq)]
pub enum VersionedXcm {
    /// The one version this module emits.
    V4(Xcm),
}

/// A location wrapped in its version tag.
#[derive(Clone, Debug, PartialEq, Eq)]
pub enum VersionedLocation {
    /// The one version this module emits.
    V4(Location),
}

impl VersionedXcm {
    /// The program carried inside the envelope.
    pub open spec fn spec_payload(self) -> Xcm {
        match self {
            VersionedXcm::V4(m) => m,
        }
    }

    /// Wrap a program in the emitted version tag.
    pub fn wrap(message: Xcm) -> (v: VersionedXcm)
        ensures
            v == VersionedXcm::V4(message),
    {
        VersionedXcm::V4(message)
    }

    /// Take the program back out of the envelope.
    pub fn into_inner(self) -> (m: Xcm)
        ensures
            m == self.spec_payload(),
    {
        match self {
            VersionedXcm::V4(m) => m,
        }
    }

    /// The integer version tag of the envelope.
    pub fn version(&self) -> (v: u32)
        ensures
            v == XCM_VERSION,
    {
        match self {
            VersionedXcm::V4(_) => XCM_VERSION,
        }
    }
}

impl VersionedLocation {
    /// The location carried inside the envelope.
    pub open spec fn spec_payload(self) -> Location {
        match self {
            VersionedLocation::V4(l) => l,
        }
    }

    /// Wrap a location in the emitted version tag.
    pub fn wrap(location: Location) -> (v: VersionedLocation)
        ensures
            v == VersionedLocation::V4(location),
    {
        VersionedLocation::V4(location)
    }

    /// Take the location back out of the envelope.
    pub fn into_inner(self) -> (l: Location)
        ensures
            l == self.spec_payload(),
    {
        match self {
            VersionedLocation::V4(l) => l,
        }
    }

    /// The integer version tag of the envelope.
    pub fn version(&self) -> (v: u32)
        ensures
            v == XCM_VERSION,
    {
        match self {
            VersionedLocation::V4(_) => XCM_VERSION,
        }
    }
}

/// Wrapping a program and taking the payload back yields the original
/// program unchanged.
pub proof fn lemma_program_roundtrip(m: Xcm)
    ensures
        VersionedXcm::V4(m).spec_payload() == m,
{
}

/// Wrapping a location and taking the payload back yields the original
/// location unchanged.
pub proof fn lemma_location_roundtrip(l: Location)
    ensures
        VersionedLocation::V4(l).spec_payload() == l,
{
}

} // verus!
