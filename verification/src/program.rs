//! Ordered instruction sequences and the builders for the four intents.
//!
//! Order is load-bearing: each instruction operates on the implicit holding
//! register filled by the ones before it, so an execution purchase must
//! immediately follow the withdrawal that funds it, and the purchase always
//! requests the unlimited weight ceiling.  The spec predicates below pin the
//! exact shape of every program this module emits.

use vstd::prelude::*;
use crate::Balance;
use crate::location::{AccountId, Asset, AssetRoot, Location, is_account, is_parent, rooted_at};
use crate::weight::{Weight, WeightLimit};

verus! {

/// The origin a remote system attributes to a dispatched inner call.
#[derive(Clone, Copy, Debug, PartialEq, Eq)]
pub enum OriginKind {
    /// The native origin of the sending system.
    Native,
    /// The sovereign account the sender holds on the remote system.
    SovereignAccount,
    /// The remote system's superuser origin.
    Superuser,
    /// A plain XCM origin.
    Xcm,
}

/// One instruction of an XCM program.
#[derive(Clone, Debug, PartialEq, Eq)]
pub enum Instruction {
    /// Move an asset from the origin's account into the holding register.
    WithdrawAsset(Asset),
    /// Pay for execution out of the holding register, up to a weight ceiling.
    BuyExecution { fees: Asset, weight_limit: WeightLimit },
    /// Dispatch an encoded inner call with a bounded weight budget.
    Transact { origin_kind: OriginKind, require_weight_at_most: Weight, call: Vec<u8> },
    /// Move an asset from the holding register to a beneficiary.
    DepositAsset { asset: Asset, beneficiary: Location },
}

/// An ordered, immutable XCM program.
#[derive(Clone, Debug, PartialEq, Eq)]
pub struct Xcm {
    /// The instructions, in execution order.
    pub instructions: Vec<Instruction>,
}

impl View for Xcm {
    type V = Seq<Instruction>;

    open spec fn view(&self) -> Seq<Instruction> {
        self.instructions@
    }
}

/// The transfer-to-account shape: withdraw `value` of the parent-rooted
/// asset, buy execution with that same asset under the unlimited ceiling,
/// deposit it to the receiver's flat account.
pub open spec fn transfer_shape(m: Seq<Instruction>, receiver: AccountId, value: Balance) -> bool {
    &&& m.len() == 3
    &&& m[0] matches Instruction::WithdrawAsset(a)
        && is_parent(a.location) && a.amount == value
    &&& m[1] matches Instruction::BuyExecution { fees, weight_limit }
        && is_parent(fees.location) && fees.amount == value && weight_limit is Unlimited
    &&& m[2] matches Instruction::DepositAsset { asset, beneficiary }
        && is_parent(asset.location) && asset.amount == value && is_account(beneficiary, receiver)
}

/// The funded-call shape: withdraw the fee from the chosen root, buy
/// execution with it under the unlimited ceiling, then dispatch the encoded
/// call as the sender's sovereign account with exactly the supplied weight.
pub open spec fn funded_call_shape(
    m: Seq<Instruction>,
    root: AssetRoot,
    fee_max: Balance,
    ref_time: u64,
    proof_size: u64,
    call: Seq<u8>,
) -> bool {
    &&& m.len() == 3
    &&& m[0] matches Instruction::WithdrawAsset(a)
        && rooted_at(a.location, root) && a.amount == fee_max
    &&& m[1] matches Instruction::BuyExecution { fees, weight_limit }
        && rooted_at(fees.location, root) && fees.amount == fee_max && weight_limit is Unlimited
    &&& m[2] matches Instruction::Transact { origin_kind, require_weight_at_most, call: c }
        && origin_kind is SovereignAccount
        && require_weight_at_most.ref_time == ref_time
        && require_weight_at_most.proof_size == proof_size
        && c@ == call
}

/// The repatriation shape: withdraw `value` from the chosen root, buy
/// execution with a separate `fee` amount of the same root under the
/// unlimited ceiling, deposit the value to the beneficiary's flat account.
pub open spec fn send_funds_shape(
    m: Seq<Instruction>,
    root: AssetRoot,
    value: Balance,
    fee: Balance,
    beneficiary: AccountId,
) -> bool {
    &&& m.len() == 3
    &&& m[0] matches Instruction::WithdrawAsset(a)
        && rooted_at(a.location, root) && a.amount == value
    &&& m[1] matches Instruction::BuyExecution { fees, weight_limit }
        && rooted_at(fees.location, root) && fees.amount == fee && weight_limit is Unlimited
    &&& m[2] matches Instruction::DepositAsset { asset, beneficiary: b }
        && rooted_at(asset.location, root) && asset.amount == value && is_account(b, beneficiary)
}

/// Build the transfer-to-account program: the caller's derivative balance on
/// the parent system moves to the receiver's account there.
pub fn transfer_message(receiver: AccountId, value: Balance) -> (m: Xcm)
    requires
        value > 0,
    ensures
        transfer_shape(m@, receiver, value),
{
    let mut instructions: Vec<Instruction> = Vec::new();
    instructions.push(Instruction::WithdrawAsset(
        Asset { location: Location::parent(), amount: value },
    ));
    instructions.push(Instruction::BuyExecution {
        fees: Asset { location: Location::parent(), amount: value },
        weight_limit: WeightLimit::Unlimited,
    });
    instructions.push(Instruction::DepositAsset {
        asset: Asset { location: Location::parent(), amount: value },
        beneficiary: Location::account_beneficiary(receiver),
    });
    Xcm { instructions }
}

/// Build the funded-call program: withdraw and spend `fee_max` of the asset
/// rooted at `root`, then dispatch `encoded_extrinsic` with the supplied
/// weight budget.
pub fn funded_call_message(
    root: AssetRoot,
    encoded_extrinsic: Vec<u8>,
    fee_max: Balance,
    ref_time: u64,
    proof_size: u64,
) -> (m: Xcm)
    requires
        fee_max > 0,
        encoded_extrinsic@.len() > 0,
    ensures
        funded_call_shape(m@, root, fee_max, ref_time, proof_size, encoded_extrinsic@),
{
    let mut instructions: Vec<Instruction> = Vec::new();
    instructions.push(Instruction::WithdrawAsset(
        Asset { location: root.location(), amount: fee_max },
    ));
    instructions.push(Instruction::BuyExecution {
        fees: Asset { location: root.location(), amount: fee_max },
        weight_limit: WeightLimit::Unlimited,
    });
    instructions.push(Instruction::Transact {
        origin_kind: OriginKind::SovereignAccount,
        require_weight_at_most: Weight::from_parts(ref_time, proof_size),
        call: encoded_extrinsic,
    });
    Xcm { instructions }
}

/// Build the repatriation program: withdraw `value` of the asset rooted at
/// `root`, buy execution with `fee` of the same asset, deposit the value to
/// the beneficiary's account.
pub fn send_funds_message(
    root: AssetRoot,
    value: Balance,
    fee: Balance,
    beneficiary: AccountId,
) -> (m: Xcm)
    requires
        value > 0,
        fee > 0,
    ensures
        send_funds_shape(m@, root, value, fee, beneficiary),
{
    let mut instructions: Vec<Instruction> = Vec::new();
    instructions.push(Instruction::WithdrawAsset(
        Asset { location: root.location(), amount: value },
    ));
    instructions.push(Instruction::BuyExecution {
        fees: Asset { location: root.location(), amount: fee },
        weight_limit: WeightLimit::Unlimited,
    });
    instructions.push(Instruction::DepositAsset {
        asset: Asset { location: root.location(), amount: value },
        beneficiary: Location::account_beneficiary(beneficiary),
    });
    Xcm { instructions }
}

/// Every valid transfer program holds exactly three instructions, ordered
/// Withdraw, BuyExecution, Deposit, and the amount withdrawn equals the
/// amount deposited.
pub proof fn lemma_transfer_withdraw_matches_deposit(
    m: Seq<Instruction>,
    receiver: AccountId,
    value: Balance,
)
    requires
        value > 0,
        transfer_shape(m, receiver, value),
    ensures
        m.len() == 3,
        m[0] is WithdrawAsset,
        m[1] is BuyExecution,
        m[2] is DepositAsset,
        ({
            &&& m[0] matches Instruction::WithdrawAsset(a)
            &&& m[2] matches Instruction::DepositAsset { asset, .. }
            &&& a.amount == asset.amount
        }),
{
}

/// Every funded-call program with positive weight components carries the
/// caller-supplied weight in its Transact instruction exactly, with no
/// truncation or rounding.
pub proof fn lemma_funded_call_weight_exact(
    m: Seq<Instruction>,
    root: AssetRoot,
    fee_max: Balance,
    ref_time: u64,
    proof_size: u64,
    call: Seq<u8>,
)
    requires
        ref_time > 0,
        proof_size > 0,
        funded_call_shape(m, root, fee_max, ref_time, proof_size, call),
    ensures
        m.len() == 3,
        m[2] matches Instruction::Transact { require_weight_at_most, .. }
            && require_weight_at_most == (Weight { ref_time, proof_size }),
{
}

} // verus!
