//! Composition and dispatch of cross-consensus (XCM) programs.
//!
//! The library builds correctly ordered, versioned XCM programs from
//! high-level intents (move value to an account, invoke a remote call with a
//! funded execution budget) and decides whether each program is executed
//! locally or sent to a remote destination.  The consensus host that actually
//! interprets a program is a black box behind two operations, execute and
//! send; this crate only assembles well-formed requests for it and maps its
//! failure codes to the caller-facing error type.

pub mod dispatch;
pub mod envelope;
pub mod error;
pub mod location;
pub mod program;
pub mod weight;

use vstd::prelude::*;

verus! {

/// Balance of a fungible asset, in the host's smallest unit.
pub type Balance = u128;

} // verus!
