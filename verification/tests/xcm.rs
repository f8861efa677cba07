use xcm_complete::dispatch::{
    complete_execute, complete_send, DispatchRequest, XcmComplete, ASSET_HUB_ID,
};
use xcm_complete::envelope::{VersionedLocation, VersionedXcm, XCM_VERSION};
use xcm_complete::error::{HostError, RuntimeError};
use xcm_complete::location::{AccountId, Asset, AssetRoot, Junction, Location};
use xcm_complete::program::{
    funded_call_message, transfer_message, Instruction, OriginKind, Xcm,
};
use xcm_complete::weight::{Weight, WeightLimit};

fn parent() -> Location {
    Location { parents: 1, interior: vec![] }
}

fn here() -> Location {
    Location { parents: 0, interior: vec![] }
}

fn sibling(id: u32) -> Location {
    Location { parents: 1, interior: vec![Junction::Parachain(id)] }
}

fn account(id: AccountId) -> Location {
    Location { parents: 0, interior: vec![Junction::AccountId32 { network: None, id }] }
}

#[test]
fn location_constructors_build_expected_values() {
    assert_eq!(Location::parent(), parent());
    assert_eq!(Location::here(), here());
    assert_eq!(Location::sibling(1000), sibling(1000));
    assert_eq!(Location::account_beneficiary([9u8; 32]), account([9u8; 32]));
    assert_eq!(AssetRoot::Here.location(), here());
    assert_eq!(AssetRoot::Parent.location(), parent());
}

#[test]
fn weight_from_parts_is_exact() {
    let w = Weight::from_parts(5000, 64);
    assert_eq!(w, Weight { ref_time: 5000, proof_size: 64 });
}

#[test]
fn transfer_program_order_and_matching_amounts() {
    let m = transfer_message([1u8; 32], 42);
    assert_eq!(m.instructions.len(), 3);
    assert!(matches!(m.instructions[0], Instruction::WithdrawAsset(_)));
    assert!(matches!(m.instructions[1], Instruction::BuyExecution { .. }));
    assert!(matches!(m.instructions[2], Instruction::DepositAsset { .. }));
    let withdrawn = match &m.instructions[0] {
        Instruction::WithdrawAsset(a) => a.amount,
        _ => unreachable!(),
    };
    let deposited = match &m.instructions[2] {
        Instruction::DepositAsset { asset, .. } => asset.amount,
        _ => unreachable!(),
    };
    assert_eq!(withdrawn, deposited);
}

#[test]
fn transfer_program_minimal_value() {
    let m = transfer_message([0u8; 32], 1);
    assert_eq!(
        m.instructions[0],
        Instruction::WithdrawAsset(Asset { location: parent(), amount: 1 })
    );
}

#[test]
fn funded_call_weight_kept_exactly() {
    let m = funded_call_message(AssetRoot::Parent, vec![9], 9, 5000, 64);
    match &m.instructions[2] {
        Instruction::Transact { require_weight_at_most, .. } => {
            assert_eq!(*require_weight_at_most, Weight { ref_time: 5000, proof_size: 64 });
        }
        other => panic!("expected Transact, got {:?}", other),
    }
}

#[test]
fn program_envelope_roundtrip() {
    let m = transfer_message([4u8; 32], 77);
    let wrapped = VersionedXcm::wrap(m.clone());
    assert_eq!(wrapped.into_inner(), m);
}

#[test]
fn location_envelope_roundtrip() {
    let l = Location::sibling(7);
    let wrapped = VersionedLocation::wrap(l.clone());
    assert_eq!(wrapped.into_inner(), l);
}

#[test]
fn envelope_version_tag_is_fixed() {
    assert_eq!(XCM_VERSION, 4);
    let m = VersionedXcm::wrap(Xcm { instructions: vec![] });
    assert_eq!(m.version(), 4);
    let d = VersionedLocation::wrap(here());
    assert_eq!(d.version(), 4);
}

#[test]
fn error_mapping_execute_code() {
    assert_eq!(
        RuntimeError::from(HostError::XcmExecutionFailed),
        RuntimeError::XcmExecuteFailed
    );
}

#[test]
fn error_mapping_send_code() {
    assert_eq!(RuntimeError::from(HostError::XcmSendFailed), RuntimeError::XcmSendFailed);
}

#[test]
fn complete_execute_passes_success_and_maps_failure() {
    assert_eq!(complete_execute(Ok(())), Ok(()));
    assert_eq!(
        complete_execute(Err(HostError::XcmExecutionFailed)),
        Err(RuntimeError::XcmExecuteFailed)
    );
}

#[test]
fn complete_send_passes_hash_and_maps_failure() {
    let hash = [0x5Au8; 32];
    assert_eq!(complete_send(Ok(hash)), Ok(hash));
    assert_eq!(complete_send(Err(HostError::XcmSendFailed)), Err(RuntimeError::XcmSendFailed));
}

#[test]
fn transfer_through_xcm_scenario() {
    let contract = XcmComplete::new();
    let receiver = [0xAAu8; 32];
    let request = contract.transfer_through_xcm(receiver, 1_000_000);
    let expected = Xcm {
        instructions: vec![
            Instruction::WithdrawAsset(Asset { location: parent(), amount: 1_000_000 }),
            Instruction::BuyExecution {
                fees: Asset { location: parent(), amount: 1_000_000 },
                weight_limit: WeightLimit::Unlimited,
            },
            Instruction::DepositAsset {
                asset: Asset { location: parent(), amount: 1_000_000 },
                beneficiary: account(receiver),
            },
        ],
    };
    assert_eq!(request, DispatchRequest::ExecuteLocal(VersionedXcm::V4(expected)));
}

#[test]
fn send_funds_scenario() {
    let contract = XcmComplete::new();
    let caller = [0xBBu8; 32];
    let request = contract.send_funds(500, 10, caller);
    let expected_program = Xcm {
        instructions: vec![
            Instruction::WithdrawAsset(Asset { location: here(), amount: 500 }),
            Instruction::BuyExecution {
                fees: Asset { location: here(), amount: 10 },
                weight_limit: WeightLimit::Unlimited,
            },
            Instruction::DepositAsset {
                asset: Asset { location: here(), amount: 500 },
                beneficiary: account(caller),
            },
        ],
    };
    assert_eq!(
        request,
        DispatchRequest::SendRemote {
            destination: VersionedLocation::V4(parent()),
            message: VersionedXcm::V4(expected_program),
        }
    );
    // The remote send acknowledges with a submission hash, not the unit
    // receipt of a local execution.
    let hash = [0x11u8; 32];
    assert_eq!(complete_send(Ok(hash)), Ok(hash));
}

#[test]
fn send_funds_ah_scenario() {
    let contract = XcmComplete::new();
    let caller = [0xCCu8; 32];
    let request = contract.send_funds_ah(500, 10, caller);
    match request {
        DispatchRequest::SendRemote { destination, message } => {
            assert_eq!(destination, VersionedLocation::V4(sibling(ASSET_HUB_ID)));
            let VersionedXcm::V4(program) = message;
            assert_eq!(
                program.instructions[0],
                Instruction::WithdrawAsset(Asset { location: parent(), amount: 500 })
            );
            assert_eq!(
                program.instructions[1],
                Instruction::BuyExecution {
                    fees: Asset { location: parent(), amount: 10 },
                    weight_limit: WeightLimit::Unlimited,
                }
            );
            assert_eq!(
                program.instructions[2],
                Instruction::DepositAsset {
                    asset: Asset { location: parent(), amount: 500 },
                    beneficiary: account(caller),
                }
            );
        }
        other => panic!("expected a remote send, got {:?}", other),
    }
}

#[test]
fn generic_execute_scenario() {
    let contract = XcmComplete::new();
    let request = contract.generic_execute(vec![0x01], 100, 5000, 64);
    let expected_program = Xcm {
        instructions: vec![
            Instruction::WithdrawAsset(Asset { location: here(), amount: 100 }),
            Instruction::BuyExecution {
                fees: Asset { location: here(), amount: 100 },
                weight_limit: WeightLimit::Unlimited,
            },
            Instruction::Transact {
                origin_kind: OriginKind::SovereignAccount,
                require_weight_at_most: Weight { ref_time: 5000, proof_size: 64 },
                call: vec![0x01],
            },
        ],
    };
    assert_eq!(
        request,
        DispatchRequest::SendRemote {
            destination: VersionedLocation::V4(parent()),
            message: VersionedXcm::V4(expected_program),
        }
    );
}

#[test]
fn generic_execute_ah_scenario() {
    let contract = XcmComplete::new();
    let request = contract.generic_execute_ah(vec![0x01, 0x02], 100, 5000, 64);
    let expected_program = Xcm {
        instructions: vec![
            Instruction::WithdrawAsset(Asset { location: parent(), amount: 100 }),
            Instruction::BuyExecution {
                fees: Asset { location: parent(), amount: 100 },
                weight_limit: WeightLimit::Unlimited,
            },
            Instruction::Transact {
                origin_kind: OriginKind::SovereignAccount,
                require_weight_at_most: Weight { ref_time: 5000, proof_size: 64 },
                call: vec![0x01, 0x02],
            },
        ],
    };
    assert_eq!(
        request,
        DispatchRequest::SendRemote {
            destination: VersionedLocation::V4(sibling(1000)),
            message: VersionedXcm::V4(expected_program),
        }
    );
}

#[test]
fn generic_execute_local_scenario() {
    let contract = XcmComplete::new();
    let request = contract.generic_execute_local(vec![0x07], 3, 10, 20);
    match request {
        DispatchRequest::ExecuteLocal(VersionedXcm::V4(program)) => {
            assert_eq!(
                program.instructions[0],
                Instruction::WithdrawAsset(Asset { location: parent(), amount: 3 })
            );
            assert_eq!(
                program.instructions[2],
                Instruction::Transact {
                    origin_kind: OriginKind::SovereignAccount,
                    require_weight_at_most: Weight { ref_time: 10, proof_size: 20 },
                    call: vec![0x07],
                }
            );
        }
        other => panic!("expected local execution, got {:?}", other),
    }
}

#[test]
fn new_builds_the_empty_facade() {
    assert_eq!(XcmComplete::new(), XcmComplete);
}
