//! Hierarchical consensus-system addresses and the assets rooted at them.

use vstd::prelude::*;
use crate::Balance;

verus! {

/// A flat 32-byte account identifier.
pub type AccountId = [u8; 32];

/// Network tag disambiguating an account id across consensus networks.
/// Every address this module builds leaves the tag unset.
#[derive(Clone, Copy, Debug, PartialEq, Eq)]
pub enum NetworkId {
    Polkadot,
    Kusama,
}

/// One hop of an interior address path.
#[derive(Clone, Copy, Debug, PartialEq, Eq)]
pub enum Junction {
    /// A sibling or child consensus system selected by numeric identifier.
    Parachain(u32),
    /// A 32-byte account with an optional network tag.
    AccountId32 { network: Option<NetworkId>, id: AccountId },
}

/// A position relative to the current consensus system: a number of hops
/// toward ancestors, then an interior path of junctions.
#[derive(Clone, Debug, PartialEq, Eq)]
pub struct Location {
    /// Hops toward the parent consensus system.
    pub parents: u8,
    /// Ordered junctions descending from the ancestor reached.
    pub interior: Vec<Junction>,
}

/// Deepest nesting (ancestor hops plus interior junctions) the protocol
/// accepts in one location.
pub const MAX_NESTING_DEPTH: usize = 8;

/// Total nesting depth of a location.
pub open spec fn depth(l: Location) -> int {
    l.parents + l.interior@.len()
}

/// The location stays within the protocol's maximum nesting depth.
pub open spec fn loc_wf(l: Location) -> bool {
    depth(l) <= MAX_NESTING_DEPTH
}

/// One hop toward the parent system, no interior path.
pub open spec fn is_parent(l: Location) -> bool {
    l.parents == 1 && l.interior@.len() == 0
}

/// The current system's own root: no hops, no interior path.
pub open spec fn is_here(l: Location) -> bool {
    l.parents == 0 && l.interior@.len() == 0
}

/// A sibling system with the given id, reached through the parent hop.
pub open spec fn is_sibling(l: Location, id: u32) -> bool {
    &&& l.parents == 1
    &&& l.interior@.len() == 1
    &&& l.interior@[0] == Junction::Parachain(id)
}

/// A local, untagged 32-byte account: a deposit target.
pub open spec fn is_account(l: Location, id: AccountId) -> bool {
    &&& l.parents == 0
    &&& l.interior@.len() == 1
    &&& l.interior@[0] == (Junction::AccountId32 { network: None, id })
}

impl Location {
    /// The parent consensus system.
    pub fn parent() -> (l: Location)
        ensures
            is_parent(l),
            loc_wf(l),
    {
        Location { parents: 1, interior: Vec::new() }
    }

    /// This system's own root.
    pub fn here() -> (l: Location)
        ensures
            is_here(l),
            loc_wf(l),
    {
        Location { parents: 0, interior: Vec::new() }
    }

    /// A sibling system selected by numeric id, one hop up and one down.
    pub fn sibling(id: u32) -> (l: Location)
        ensures
            is_sibling(l, id),
            loc_wf(l),
    {
        let mut interior: Vec<Junction> = Vec::new();
        interior.push(Junction::Parachain(id));
        Location { parents: 1, interior }
    }

    /// A flat 32-byte account with no network disambiguation.
    pub fn account_beneficiary(id: AccountId) -> (l: Location)
        ensures
            is_account(l, id),
            loc_wf(l),
    {
        let mut interior: Vec<Junction> = Vec::new();
        interior.push(Junction::AccountId32 { network: None, id });
        Location { parents: 0, interior }
    }
}

/// Where a fungible asset is rooted, for the two roots this module funds
/// execution from: the present system or its parent.
#[derive(Clone, Copy, Debug, PartialEq, Eq)]
pub enum AssetRoot {
    /// Rooted at the present system (`is_here`).
    Here,
    /// Rooted at the parent system (`is_parent`).
    Parent,
}

/// The location is the one the given root denotes.
pub open spec fn rooted_at(l: Location, root: AssetRoot) -> bool {
    match root {
        AssetRoot::Here => is_here(l),
        AssetRoot::Parent => is_parent(l),
    }
}

impl AssetRoot {
    /// The location this root denotes, built fresh.
    pub fn location(self) -> (l: Location)
        ensures
            rooted_at(l, self),
            loc_wf(l),
    {
        match self {
            AssetRoot::Here => Location::here(),
            AssetRoot::Parent => Location::parent(),
        }
    }
}

/// Every location shape this module constructs — the parent, the local root,
/// a sibling system, a flat account — stays within the protocol's maximum
/// nesting depth.
pub proof fn lemma_known_locations_within_depth(l: Location)
    ensures
        is_parent(l) ==> loc_wf(l),
        is_here(l) ==> loc_wf(l),
        forall|id: u32| is_sibling(l, id) ==> loc_wf(l),
        forall|id: AccountId| is_account(l, id) ==> loc_wf(l),
{
}

/// A fungible holding: an amount of the asset rooted at a location.
#[derive(Clone, Debug, PartialEq, Eq)]
pub struct Asset {
    /// Where the asset is rooted.
    pub location: Location,
    /// The amount held, in the asset's smallest unit.
    pub amount: Balance,
}

} // verus!
