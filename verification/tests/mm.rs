use tetra_bluestation::bluestation::gateways::{DmGatewayRegistry, DmMsRouteAddress};
use tetra_bluestation::bluestation::subscribers::SubscriberRegistry;
use tetra_bluestation::mm::mm_bs::{MmBs, MmPort, MmUplink, MmUplinkPdu};
use tetra_bluestation::mm::pdu::{
    AttachmentOperation, AttachmentResult, EnergyEconomyAssignment, EnergySavingMode,
    GatewayPayload, GroupIdentityLocationDemand, GroupIdentityUplink, LocationUpdateType,
    MmMessage, MmPdu, MmRequest, MmSwmiMessage, RegistrationDecision, StatusDownlink,
    StatusUplink, Type3FieldGeneric, UAttachDetachGroupIdentity, ULocationUpdateDemand, UMmStatus,
};
use tetra_bluestation::swmi::SwmiEndpoint;
use tetra_bluestation::tdma::TdmaTime;

#[test]
fn authentication_correlation_distinguishes_terminals_with_handle_zero() {
    assert_ne!(
        MmBs::authentication_correlation_key(77491, 0),
        MmBs::authentication_correlation_key(77492, 0)
    );
}

fn port(online: bool) -> MmPort {
    MmPort {
        subscribers: SubscriberRegistry::new(),
        dm_gateways: DmGatewayRegistry::default(),
        queue: Vec::new(),
        link: SwmiEndpoint { present: true, online, accepting: true },
        brew: None,
    }
}

fn prim(ssi: u32) -> MmUplink {
    MmUplink { ssi, handle: 5, forward_registration_target_station_id: None }
}

fn demand(kind: LocationUpdateType) -> ULocationUpdateDemand {
    ULocationUpdateDemand {
        location_update_type: kind,
        request_to_append_la: false,
        cipher_control: false,
        has_ciphering_parameters: false,
        class_of_ms: None,
        energy_saving_mode: None,
        address_extension: None,
        group_identity_location_demand: None,
        authentication_uplink: None,
    }
}

fn group(gssi: u32, detach: bool) -> GroupIdentityUplink {
    GroupIdentityUplink {
        gssi: Some(gssi),
        vgssi: None,
        address_extension: None,
        group_identity_detachment_uplink: if detach { Some(0) } else { None },
        class_of_usage: Some(4),
    }
}

fn decision(command_id: u64, accepted: bool) -> RegistrationDecision {
    RegistrationDecision {
        command_id,
        itsi: 7,
        air_handle: 5,
        accepted,
        cause: if accepted { 0 } else { 3 },
        energy_economy: EnergyEconomyAssignment::stay_alive(),
        rua_requested: false,
        handover_allocation: None,
    }
}

#[test]
fn a_station_alone_registers_a_terminal_with_its_groups() {
    let mut mm = MmBs::new();
    let mut port = port(false);
    let mut attach = demand(LocationUpdateType::ItsiAttach);
    attach.group_identity_location_demand = Some(GroupIdentityLocationDemand {
        replace_all: true,
        group_identity_uplink: Some(vec![group(91, false)]),
    });
    mm.rx_u_location_update_demand(&mut port, &prim(7), &attach);
    assert!(port.subscribers.is_registered(7));
    assert!(port.subscribers.is_affiliated(7, 91));
    assert!(port.queue.iter().any(|m| matches!(
        m,
        MmMessage::Accept { head, groups, .. } if head.ssi == 7 && groups.len() == 1
    )));
    mm.rx_u_itsi_detach(&mut port, 7);
    assert!(!port.subscribers.is_registered(7));
}

#[test]
fn migration_is_refused() {
    let mut mm = MmBs::new();
    let mut port = port(false);
    let migrating = demand(LocationUpdateType::MigratingLocationUpdating);
    mm.rx_lmm_mle_unitdata_ind(&mut port, &prim(7), &MmUplinkPdu::LocationUpdateDemand(migrating));
    assert!(matches!(
        port.queue[..],
        [MmMessage::Downlink { issi: 7, pdu: MmPdu::LocationUpdateReject { reject_cause: 12, .. }, .. }]
    ));
    assert!(!port.subscribers.is_registered(7));
}

#[test]
fn the_swmi_decides_on_a_registration() {
    let mut mm = MmBs::new();
    let mut port = port(true);
    mm.rx_u_location_update_demand(&mut port, &prim(7), &demand(LocationUpdateType::ItsiAttach));
    assert!(matches!(
        &port.queue[..],
        [MmMessage::RegistrationAttempt { head, target: None }]
            if head.command_id == 1 && head.itsi == 7 && head.location_update_type == 3
    ));
    assert!(!port.subscribers.is_registered(7));
    port.queue.clear();
    // A decision on another exchange is ignored.
    let foreign = RegistrationDecision { air_handle: 6, ..decision(1, true) };
    mm.apply_swmi_registration_decision(&mut port, foreign);
    assert!(port.queue.is_empty());
    mm.rx_u_location_update_demand(&mut port, &prim(7), &demand(LocationUpdateType::ItsiAttach));
    port.queue.clear();
    mm.apply_swmi_registration_decision(&mut port, decision(2, true));
    assert!(port.subscribers.is_registered(7));
    assert!(port.queue.iter().any(|m| matches!(m, MmMessage::Accept { .. })));
    port.queue.clear();
    mm.apply_swmi_registration_decision(&mut port, decision(2, true));
    assert!(port.queue.is_empty());
}

#[test]
fn a_refused_registration_is_rejected() {
    let mut mm = MmBs::new();
    let mut port = port(true);
    mm.rx_u_location_update_demand(&mut port, &prim(7), &demand(LocationUpdateType::ItsiAttach));
    port.queue.clear();
    mm.apply_swmi_registration_decision(&mut port, decision(1, false));
    assert!(matches!(
        port.queue[..],
        [MmMessage::Downlink { pdu: MmPdu::LocationUpdateReject { .. }, .. }]
    ));
    assert!(!port.subscribers.is_registered(7));
}

#[test]
fn an_unanswered_registration_is_rejected_after_ten_seconds() {
    let mut mm = MmBs::new();
    let mut port = port(true);
    let start = TdmaTime::default();
    mm.tick_start(&mut port, start, &vec![]);
    mm.rx_u_location_update_demand(&mut port, &prim(7), &demand(LocationUpdateType::ItsiAttach));
    port.queue.clear();
    mm.tick_start(&mut port, start.add_timeslots(719), &vec![]);
    assert!(port.queue.is_empty());
    mm.tick_start(&mut port, start.add_timeslots(720), &vec![]);
    assert!(matches!(
        port.queue[..],
        [MmMessage::Downlink { pdu: MmPdu::LocationUpdateReject { reject_cause: 5, .. }, .. }]
    ));
}

#[test]
fn a_lost_connection_turns_waiting_registrations_into_local_ones() {
    let mut mm = MmBs::new();
    let mut port = port(true);
    mm.rx_u_location_update_demand(&mut port, &prim(7), &demand(LocationUpdateType::ItsiAttach));
    port.queue.clear();
    port.link.online = false;
    mm.tick_start(&mut port, TdmaTime::default(), &vec![]);
    assert!(port.subscribers.is_registered(7));
    assert!(port.queue.iter().any(|m| matches!(m, MmMessage::Accept { .. })));
}

fn register(mm: &mut MmBs, port: &mut MmPort) {
    let online = port.link.online;
    port.link.online = false;
    mm.rx_u_location_update_demand(port, &prim(7), &demand(LocationUpdateType::ItsiAttach));
    port.link.online = online;
    port.queue.clear();
}

#[test]
fn the_swmi_decides_on_groups() {
    let mut mm = MmBs::new();
    let mut port = port(true);
    register(&mut mm, &mut port);
    let pdu = UAttachDetachGroupIdentity {
        replace_all: false,
        group_identity_uplink: Some(vec![group(91, false), group(92, false)]),
    };
    mm.rx_u_attach_detach_group_identity(&mut port, 7, 5, &pdu);
    let command_id = match &port.queue[..] {
        [MmMessage::AttachmentAttempt { head, operations }] => {
            assert_eq!(operations.len(), 2);
            head.command_id
        }
        other => panic!("{:?}", other),
    };
    port.queue.clear();
    let result = |gssi: u32, accepted: bool| AttachmentResult {
        operation: AttachmentOperation { gssi, detach: false, class_of_usage: 4 },
        accepted,
        cause: 0,
    };
    let results = vec![result(91, true), result(92, false)];
    mm.tick_start(
        &mut port,
        TdmaTime::default(),
        &vec![MmSwmiMessage::AttachmentDecision {
            command_id,
            itsi: 7,
            air_handle: 5,
            has_rejection: true,
            results,
        }],
    );
    assert!(port.subscribers.is_affiliated(7, 91));
    assert!(!port.subscribers.is_affiliated(7, 92));
    assert!(port.queue.iter().any(|m| matches!(m, MmMessage::Acknowledge { issi: 7, rejected: true, .. })));
}

#[test]
fn energy_economy_is_given_and_rebased() {
    let mut mm = MmBs::new();
    let mut port = port(false);
    register(&mut mm, &mut port);
    let status = UMmStatus {
        status_uplink: StatusUplink::ChangeOfEnergySavingModeRequest,
        information: Some(2),
        information_len: Some(3),
        gateway_payload: None,
    };
    mm.rx_u_mm_status(&mut port, 7, 5, &status);
    match &port.queue[..] {
        [MmMessage::Downlink { pdu: MmPdu::EnergySavingResponse { information }, .. }] => {
            assert_eq!(information.mode, EnergySavingMode::Eg2);
            assert_eq!(information.frame_number, Some(2));
            assert_eq!(information.multiframe_number, Some(1));
        }
        other => panic!("{:?}", other),
    }
    port.queue.clear();
    mm.rx_swmi(
        &mut port,
        &MmSwmiMessage::EnergyEconomyRebaseRequest { request_id: 9, itsi: 7, mode: 1 },
    );
    assert!(matches!(
        port.queue[..],
        [MmMessage::Request(MmRequest::EnergyEconomyRebaseResult { request_id: 9, itsi: 7, .. })]
    ));
    port.queue.clear();
    mm.rx_swmi(
        &mut port,
        &MmSwmiMessage::EnergyEconomyRebaseRequest { request_id: 9, itsi: 7, mode: 0 },
    );
    assert!(port.queue.is_empty());
}

#[test]
fn a_gateway_is_announced() {
    let mut mm = MmBs::new();
    let mut port = port(true);
    register(&mut mm, &mut port);
    let address = DmMsRouteAddress { ssi: 300, mcc: None, mnc: None };
    let status = UMmStatus {
        status_uplink: StatusUplink::RequestToStartDmGatewayOperation,
        // Long as it may be: this status is not read for it.
        information: Some(0),
        information_len: Some(200),
        gateway_payload: Some(GatewayPayload::Start { addresses: vec![address], dmo_carrier: None }),
    };
    mm.rx_u_mm_status(&mut port, 7, 5, &status);
    assert!(port.dm_gateways.is_active(7));
    assert_eq!(port.dm_gateways.gateways_for(address), vec![7]);
    assert!(port.queue.iter().any(|m| matches!(
        m,
        MmMessage::Downlink {
            pdu: MmPdu::GatewayStatus {
                status_downlink: StatusDownlink::AcceptanceToStartDmGatewayOperation,
                ..
            },
            ..
        }
    )));
    assert!(port.queue.iter().any(|m| matches!(
        m,
        MmMessage::GatewayState { head, addresses } if head.active && addresses.len() == 1
    )));
}

#[test]
fn a_challenge_is_the_last_ten_bytes_of_its_element() {
    let short = Type3FieldGeneric { len: 79, data: 0, raw: vec![0; 4] };
    assert_eq!(MmBs::authentication_uplink(&short), None);
    let field = Type3FieldGeneric {
        len: 80,
        data: 0x0102_0304_0506_0708,
        raw: vec![9, 10],
    };
    assert_eq!(MmBs::authentication_uplink(&field), Some([1, 2, 3, 4, 5, 6, 7, 8, 9, 10]));
}

#[test]
fn what_was_learned_alone_is_reported() {
    let mut mm = MmBs::new();
    let mut port = port(false);
    register(&mut mm, &mut port);
    mm.rx_swmi(&mut port, &MmSwmiMessage::LstRecoveryRequest { command_id: 4 });
    match &port.queue[..] {
        [MmMessage::RecoverySnapshot { command_id: 4, subscribers, groups }] => {
            assert_eq!(subscribers.len(), 1);
            assert_eq!(subscribers[0].itsi, 7);
            assert!(groups.is_empty());
        }
        other => panic!("{:?}", other),
    }
}

#[test]
fn a_roaming_terminal_is_restored_without_a_word_on_the_air() {
    let mut mm = MmBs::new();
    let mut port = port(true);
    mm.rx_swmi(
        &mut port,
        &MmSwmiMessage::SubscriberStateSync {
            itsi: 7,
            groups: vec![AttachmentOperation { gssi: 91, detach: false, class_of_usage: 4 }],
            scanning_enabled: false,
            energy_economy: EnergyEconomyAssignment::stay_alive(),
        },
    );
    assert!(port.subscribers.is_registered(7));
    assert!(port.subscribers.is_affiliated(7, 91));
    assert!(!port.queue.is_empty());
    assert!(port.queue.iter().all(|m| matches!(m, MmMessage::Update { .. })));
}

#[test]
fn a_mismatched_decision_leaves_the_registration_waiting() {
    let mut mm = MmBs::new();
    let mut port = port(true);
    mm.rx_u_location_update_demand(&mut port, &prim(7), &demand(LocationUpdateType::ItsiAttach));
    port.queue.clear();
    let foreign = RegistrationDecision { itsi: 8, ..decision(1, true) };
    mm.apply_swmi_registration_decision(&mut port, foreign);
    assert!(port.queue.is_empty());
    mm.apply_swmi_registration_decision(&mut port, decision(1, true));
    assert!(port.subscribers.is_registered(7));
}

#[test]
fn a_removed_terminal_is_gone() {
    let mut mm = MmBs::new();
    let mut port = port(false);
    register(&mut mm, &mut port);
    let answer = mm.try_attach_detach_groups(&mut port, 7, &vec![group(91, false)]);
    assert_eq!(answer.len(), 1);
    assert!(port.subscribers.is_affiliated(7, 91));
    assert!(mm.remove_local_subscriber(&mut port, 7));
    assert!(!port.subscribers.is_registered(7));
    assert!(!port.subscribers.has_group_members(91));
    assert!(!mm.remove_local_subscriber(&mut port, 7));
}
