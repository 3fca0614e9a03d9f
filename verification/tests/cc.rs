use tetra_bluestation::cmce::cc_bs::{CcBsSubentity, CcPort};
use tetra_bluestation::cmce::cc_model::{SubscriberAction, HANGTIME_TIMESLOTS};
use tetra_bluestation::cmce::circuit::{TimeslotAllocator, TimeslotOwner};
use tetra_bluestation::cmce::pdu::{
    BasicServiceInformation, CallControl, CallMessage, CcMessage, CircuitModeType,
    CommunicationType, DisconnectCause, DownlinkPdu, PartyTypeIdentifier, SetupRequest, SwmiLink,
    TetraAddress, TetraEntity, TransmissionGrant, USetup, UplinkPdu, UplinkPrim,
};
use tetra_bluestation::tdma::TdmaTime;

fn port(swmi: SwmiLink) -> CcPort {
    CcPort {
        queue: Vec::new(),
        timeslots: TimeslotAllocator::default(),
        swmi,
        brew: Vec::new(),
        main_carrier: 1521,
    }
}

fn prim(issi: u32) -> UplinkPrim {
    UplinkPrim { handle: 1, endpoint_id: 2, link_id: 3, received: TetraAddress::issi(issi) }
}

fn setup(issi: u32, called: u32, communication_type: CommunicationType) -> SetupRequest {
    SetupRequest {
        prim: prim(issi),
        pdu: USetup {
            area_selection: 0,
            hook_method_selection: false,
            simplex_duplex_selection: false,
            basic_service_information: BasicServiceInformation {
                circuit_mode_type: CircuitModeType::TchS,
                encryption_flag: false,
                communication_type,
                slots_per_frame: None,
                speech_service: Some(0),
            },
            request_to_transmit_send_data: true,
            call_priority: 3,
            called_party_type_identifier: PartyTypeIdentifier::Ssi,
            called_party_ssi: Some(called),
            called_party_extension: None,
        },
    }
}

/// Terminals 7 and 8 are members of group 91.
fn station(port: &mut CcPort) -> CcBsSubentity {
    let mut cc = CcBsSubentity::new();
    for issi in [7, 8] {
        cc.handle_subscriber_update(port, SubscriberAction::Register, issi, &vec![], &vec![], None);
        cc.handle_subscriber_update(
            port,
            SubscriberAction::Affiliate,
            issi,
            &vec![91],
            &vec![4],
            None,
        );
    }
    port.queue.clear();
    cc
}

fn tick(cc: &mut CcBsSubentity, port: &mut CcPort, now: TdmaTime, actions: Vec<CallMessage>) {
    cc.tick_start(port, now, &actions);
}

fn downlinks(port: &CcPort) -> Vec<DownlinkPdu> {
    port.queue
        .iter()
        .filter_map(|m| match m {
            CcMessage::Downlink(request) => Some(request.pdu),
            _ => None,
        })
        .collect()
}

fn controls(port: &CcPort) -> Vec<(TetraEntity, CallControl)> {
    port.queue
        .iter()
        .filter_map(|m| match m {
            CcMessage::Control(dest, message) => Some((*dest, *message)),
            _ => None,
        })
        .collect()
}

const ONLINE: SwmiLink = SwmiLink::Online { accepting: true };

#[test]
fn a_station_alone_opens_a_group_call() {
    let mut port = port(SwmiLink::Absent);
    let mut cc = station(&mut port);
    cc.rx_u_setup(&mut port, setup(7, 91, CommunicationType::P2Mp));
    assert_eq!(port.timeslots.ts2, Some(TimeslotOwner::Cmce));
    let pdus = downlinks(&port);
    assert!(matches!(pdus[0], DownlinkPdu::DCallProceeding { .. }));
    match pdus[1] {
        DownlinkPdu::DConnect(connect) => {
            assert_eq!(connect.call_identifier, 4);
            assert_eq!(connect.transmission_grant, TransmissionGrant::Granted);
            assert!(connect.call_ownership);
        }
        other => panic!("{:?}", other),
    }
    assert!(matches!(pdus[2], DownlinkPdu::DSetup(d) if d.call_identifier == 4));
    assert!(matches!(controls(&port)[0], (TetraEntity::Umac, CallControl::Open(c)) if c.ts == 2));
    // The other member joins the call that there is.
    port.queue.clear();
    cc.rx_u_setup(&mut port, setup(8, 91, CommunicationType::P2Mp));
    assert_eq!(port.timeslots.ts3, None);
    assert!(matches!(
        downlinks(&port)[1],
        DownlinkPdu::DConnect(c)
            if c.call_identifier == 4 && c.transmission_grant == TransmissionGrant::GrantedToOtherUser
    ));
}

#[test]
fn a_group_without_listeners_cannot_be_called() {
    let mut port = port(SwmiLink::Absent);
    let mut cc = station(&mut port);
    cc.rx_u_setup(&mut port, setup(7, 92, CommunicationType::P2Mp));
    assert!(matches!(
        downlinks(&port)[..],
        [DownlinkPdu::DRelease { disconnect_cause: DisconnectCause::RequestedServiceNotAvailable, .. }]
    ));
    assert!(cc.has_listener(91));
    assert!(!cc.has_listener(92));
}

#[test]
fn a_silent_call_ends_and_frees_its_timeslot() {
    let mut port = port(SwmiLink::Absent);
    let mut cc = station(&mut port);
    let start = TdmaTime::default();
    tick(&mut cc, &mut port, start, vec![]);
    cc.rx_u_setup(&mut port, setup(7, 91, CommunicationType::P2Mp));
    cc.rx_u_tx_ceased(&mut port, prim(7), 4);
    port.queue.clear();
    tick(&mut cc, &mut port, start.add_timeslots(HANGTIME_TIMESLOTS), vec![]);
    assert!(port.queue.is_empty());
    let over = start.add_timeslots(HANGTIME_TIMESLOTS + 1);
    tick(&mut cc, &mut port, over, vec![]);
    assert!(matches!(
        downlinks(&port)[..],
        [DownlinkPdu::DRelease { disconnect_cause: DisconnectCause::ExpiryOfTimer, .. }]
    ));
    // The circuit stays until the release is transmitted.
    assert_eq!(port.timeslots.ts2, Some(TimeslotOwner::Cmce));
    port.queue.clear();
    tick(&mut cc, &mut port, over.add_timeslots(71), vec![]);
    assert_eq!(port.timeslots.ts2, Some(TimeslotOwner::Cmce));
    tick(&mut cc, &mut port, over.add_timeslots(72), vec![]);
    assert_eq!(port.timeslots.ts2, None);
    assert!(controls(&port)
        .iter()
        .any(|c| matches!(c, (TetraEntity::Umac, CallControl::CallEnded { call_id: 4, ts: 2 }))));
}

#[test]
fn a_call_ends_with_its_last_listener() {
    let mut port = port(SwmiLink::Absent);
    let mut cc = station(&mut port);
    cc.rx_u_setup(&mut port, setup(7, 91, CommunicationType::P2Mp));
    port.queue.clear();
    cc.handle_subscriber_update(&mut port, SubscriberAction::Deaffiliate, 7, &vec![91], &vec![], None);
    assert!(downlinks(&port).is_empty());
    cc.handle_subscriber_update(&mut port, SubscriberAction::Deregister, 8, &vec![], &vec![], None);
    assert!(matches!(
        downlinks(&port)[..],
        [DownlinkPdu::DRelease {
            disconnect_cause: DisconnectCause::SwmiRequestedDisconnection,
            ..
        }]
    ));
}

#[test]
fn a_connected_station_waits_for_the_decision() {
    let mut port = port(ONLINE);
    let mut cc = station(&mut port);
    cc.rx_u_setup(&mut port, setup(7, 91, CommunicationType::P2Mp));
    assert_eq!(port.timeslots.ts2, None);
    assert!(matches!(
        port.queue[..],
        [CcMessage::Swmi(CallMessage::GroupCallRequest { command_id: 1, itsi: 7, gssi: 91, priority: 3, .. })]
    ));
    port.queue.clear();
    cc.handle_swmi_action(
        &mut port,
        CallMessage::GroupCallStart {
            call_id: 77,
            owner_itsi: 7,
            gssi: 91,
            priority: 5,
            floor_itsi: 7,
            acknowledged: false,
        },
    );
    assert_eq!(port.timeslots.ts2, Some(TimeslotOwner::Cmce));
    assert!(downlinks(&port).iter().any(|pdu| matches!(
        pdu,
        DownlinkPdu::DConnect(c)
            if c.call_identifier == 77
                && c.transmission_grant == TransmissionGrant::Granted
                && c.call_priority == Some(5)
    )));
    assert!(controls(&port).iter().any(|c| matches!(
        c,
        (TetraEntity::Swmi, CallControl::FloorGranted { call_id: 77, source_issi: 7, dest_gssi: 91, ts: 2 })
    )));
    // A call of the SwMI outlives its hangtime while the SwMI is connected.
    let now = TdmaTime::default();
    cc.handle_swmi_action(&mut port, CallMessage::FloorReleased { call_id: 77 });
    port.queue.clear();
    tick(&mut cc, &mut port, now.add_timeslots(4 * HANGTIME_TIMESLOTS), vec![]);
    assert!(downlinks(&port).is_empty());
    cc.handle_swmi_action(&mut port, CallMessage::CallRelease { call_id: 77, cause: 1 });
    assert!(matches!(
        downlinks(&port)[..],
        [DownlinkPdu::DRelease { disconnect_cause: DisconnectCause::UserRequestedDisconnection, .. }]
    ));
}

#[test]
fn the_floor_is_asked_of_the_swmi() {
    let mut port = port(ONLINE);
    let mut cc = station(&mut port);
    cc.handle_swmi_action(
        &mut port,
        CallMessage::GroupCallStart {
            call_id: 77,
            owner_itsi: 1000,
            gssi: 91,
            priority: 5,
            floor_itsi: 1000,
            acknowledged: false,
        },
    );
    port.queue.clear();
    cc.rx_u_tx_demand(&mut port, prim(7), 77, 2);
    assert!(port.queue.iter().any(|m| matches!(
        m,
        CcMessage::Swmi(CallMessage::FloorRequest { call_id: 77, itsi: 7, tx_demand_priority: 2, .. })
    )));
    port.queue.clear();
    cc.rx_u_disconnect(&mut port, prim(7), 77, DisconnectCause::UserRequestedDisconnection);
    assert!(port.queue.iter().any(|m| matches!(
        m,
        CcMessage::Swmi(CallMessage::CallDisconnectRequest { call_id: 77, itsi: 7, .. })
    )));
}

#[test]
fn a_private_call_gets_circuits_for_both_parties_or_none() {
    let mut port = port(ONLINE);
    let mut cc = station(&mut port);
    cc.rx_u_setup(&mut port, setup(7, 8, CommunicationType::P2p));
    assert!(matches!(
        port.queue[..],
        [CcMessage::Swmi(CallMessage::PrivateCallRequest { caller_itsi: 7, callee_itsi: 8, .. })]
    ));
    let offer = CallMessage::PrivateCallProceeding {
        call_id: 55,
        caller_itsi: 7,
        callee_itsi: 8,
        hook: false,
        duplex: true,
        request_to_transmit: true,
        priority: 1,
    };
    cc.handle_swmi_action(&mut port, offer);
    // Two of three timeslots are taken by another: one is not enough.
    port.timeslots.ts3 = Some(TimeslotOwner::Brew);
    port.timeslots.ts4 = Some(TimeslotOwner::Brew);
    port.queue.clear();
    let reserve = CallMessage::PrivateCallReserve {
        call_id: 55,
        caller_itsi: 7,
        callee_itsi: 8,
        endpoint_mask: 3,
        duplex: true,
    };
    cc.handle_swmi_action(&mut port, reserve);
    assert_eq!(port.timeslots.ts2, None);
    assert!(port.queue.iter().any(|m| matches!(
        m,
        CcMessage::Swmi(CallMessage::PrivateCallResourceResult { call_id: 55, accepted: false, .. })
    )));
    port.timeslots.ts3 = None;
    port.queue.clear();
    cc.handle_swmi_action(&mut port, reserve);
    assert_eq!(port.timeslots.ts2, Some(TimeslotOwner::Cmce));
    assert_eq!(port.timeslots.ts3, Some(TimeslotOwner::Cmce));
    assert!(port.queue.iter().any(|m| matches!(
        m,
        CcMessage::Swmi(CallMessage::PrivateCallResourceResult { call_id: 55, accepted: true, .. })
    )));
    cc.handle_swmi_action(
        &mut port,
        CallMessage::PrivateCallConnected { call_id: 55, initial_floor_itsi: 7 },
    );
    assert!(cc.private_call_is_connected_for(7));
    assert_eq!(cc.preferred_listener_channel(7).map(|c| c.call_id), Some(55));
    cc.handle_swmi_action(
        &mut port,
        CallMessage::PrivateCallRelease { call_id: 55, itsi: 7, cause: 1 },
    );
    assert!(!cc.private_call_is_connected_for(7));
}

#[test]
fn scan_priorities_follow_the_class_of_usage() {
    let mut port = port(SwmiLink::Absent);
    let mut cc = station(&mut port);
    assert_eq!(cc.effective_scan_priority(7, 91), Some(4));
    assert!(cc.group_is_receivable(7, 91));
    // A locked group keeps the others from being heard.
    cc.handle_subscriber_update(&mut port, SubscriberAction::Affiliate, 7, &vec![95], &vec![6], None);
    assert!(!cc.group_is_receivable(7, 91));
    assert!(cc.group_is_receivable(7, 95));
}

#[test]
fn a_network_call_is_carried_by_brew() {
    let mut port = port(SwmiLink::Absent);
    port.brew = vec![(90, 99)];
    let mut cc = station(&mut port);
    cc.rx_call_control(
        &mut port,
        CallControl::NetworkCallStart { brew_uuid: 9, source_issi: 1000, dest_gssi: 91, priority: 0 },
    );
    assert_eq!(port.timeslots.ts2, Some(TimeslotOwner::Cmce));
    assert!(controls(&port).iter().any(|c| matches!(
        c,
        (TetraEntity::Brew, CallControl::NetworkCallReady { brew_uuid: 9, ts: 2, .. })
    )));
    port.queue.clear();
    cc.rx_call_control(&mut port, CallControl::NetworkCallEnd { brew_uuid: 9 });
    assert!(matches!(downlinks(&port)[..], [DownlinkPdu::DTxCeased { .. }]));
    cc.rx_call_control(&mut port, CallControl::UlInactivityTimeout { ts: 2 });
    assert_eq!(downlinks(&port).len(), 1);
}

#[test]
fn uplink_pdus_are_dispatched() {
    let mut port = port(SwmiLink::Absent);
    let mut cc = station(&mut port);
    let request = setup(7, 91, CommunicationType::P2Mp);
    cc.route_xx_deliver(&mut port, request.prim, UplinkPdu::USetup(request.pdu));
    assert_eq!(port.timeslots.ts2, Some(TimeslotOwner::Cmce));
    port.queue.clear();
    cc.route_xx_deliver(&mut port, prim(7), UplinkPdu::UTxCeased { call_identifier: 4 });
    assert!(matches!(downlinks(&port)[0], DownlinkPdu::DTxCeased { .. }));
    port.queue.clear();
    cc.route_xx_deliver(
        &mut port,
        prim(8),
        UplinkPdu::UTxDemand { call_identifier: 4, tx_demand_priority: 0 },
    );
    assert!(downlinks(&port).iter().any(|pdu| matches!(pdu, DownlinkPdu::DTxGranted { .. })));
}

/// A connected simplex call of terminals 7 and 8.
fn private_call(cc: &mut CcBsSubentity, port: &mut CcPort) {
    cc.handle_swmi_action(
        port,
        CallMessage::PrivateCallOffer {
            call_id: 55,
            caller_itsi: 7,
            callee_itsi: 8,
            hook: false,
            duplex: false,
            request_to_transmit: true,
            priority: 1,
        },
    );
    cc.handle_swmi_action(
        port,
        CallMessage::PrivateCallReserve {
            call_id: 55,
            caller_itsi: 7,
            callee_itsi: 8,
            endpoint_mask: 3,
            duplex: false,
        },
    );
    cc.handle_swmi_action(
        port,
        CallMessage::PrivateCallConnected { call_id: 55, initial_floor_itsi: 7 },
    );
    port.queue.clear();
}

#[test]
fn two_parties_of_a_simplex_call_share_a_timeslot() {
    let mut port = port(ONLINE);
    let mut cc = station(&mut port);
    private_call(&mut cc, &mut port);
    assert_eq!(port.timeslots.ts2, Some(TimeslotOwner::Cmce));
    assert_eq!(port.timeslots.ts3, None);
    assert_eq!(cc.preferred_listener_channel(7), cc.preferred_listener_channel(8));
}

#[test]
fn a_floor_request_is_sent_once() {
    let mut port = port(ONLINE);
    let mut cc = station(&mut port);
    private_call(&mut cc, &mut port);
    cc.rx_u_tx_demand(&mut port, prim(8), 55, 0);
    cc.rx_u_tx_demand(&mut port, prim(8), 55, 0);
    let asked = port
        .queue
        .iter()
        .filter(|m| matches!(m, CcMessage::Swmi(CallMessage::PrivateFloorGranted { itsi: 8, .. })))
        .count();
    assert_eq!(asked, 1);
}

#[test]
fn a_departed_party_leaves_the_other() {
    let mut port = port(ONLINE);
    let mut cc = station(&mut port);
    private_call(&mut cc, &mut port);
    cc.handle_swmi_action(&mut port, CallMessage::PrivateCallEndpointMoved { call_id: 55, itsi: 7 });
    assert!(!cc.private_call_is_connected_for(7));
    assert!(cc.private_call_is_connected_for(8));
    assert_eq!(port.timeslots.ts2, Some(TimeslotOwner::Cmce));
}

#[test]
fn the_latest_channel_is_where_a_terminal_is_reached() {
    let mut port = port(SwmiLink::Absent);
    let mut cc = station(&mut port);
    assert_eq!(cc.preferred_listener_channel(8), None);
    cc.rx_u_setup(&mut port, setup(7, 91, CommunicationType::P2Mp));
    let channel = cc.preferred_listener_channel(8).unwrap();
    assert_eq!((channel.call_id, channel.timeslot), (4, 2));
    // A released call is no channel any more.
    cc.release_call(&mut port, 4, DisconnectCause::ExpiryOfTimer);
    assert_eq!(cc.preferred_listener_channel(8), None);
}
