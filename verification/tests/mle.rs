use tetra_bluestation::bitbuffer::BitBuffer;
use tetra_bluestation::bluestation::network_broadcast::{
    CfgNetworkBroadcast, RuntimeNetworkBroadcast,
};
use tetra_bluestation::cmce::pdu::{Layer2Service, TetraAddress};
use tetra_bluestation::mle::broadcast::{check_settings, neighbour_to_air, MleBroadcast};
use tetra_bluestation::mle::mle_bs::{
    network_broadcast_due, EmbeddedMm, LinkHead, MleBs, MleMessage, MlePdu, MlePort,
    MleProtocolDiscriminator, MleUplinkPdu, SettingsUpdate, UPrepare, UplinkHead,
    MLE_BROADCAST_INTERVAL_TIMESLOTS, MLE_BROADCAST_TX_AHEAD_TIMESLOTS, T370_TIMESLOTS,
};
use tetra_bluestation::mm::pdu::{LocationUpdateType, SeamlessHandover};
use tetra_bluestation::net_swmi::protocol::{
    BsServiceDetails, CellAieConfig, CellConfig, NeighbourCell, NeighbourCellSnapshot, SystemInfo,
    SystemInfoReport,
};
use tetra_bluestation::tdma::TdmaTime;

#[test]
fn network_broadcast_repeats_every_five_multiframes_on_ts1() {
    let mut next_broadcast = None;
    let mut broadcasts = Vec::new();

    // The entity runs at the preceding timeslot 4; the PDU goes out on the
    // corresponding timeslot 1. Several periods are covered.
    for offset in 0..(18 * 4 * 16 + 4) {
        let now = TdmaTime::default().add_timeslots(offset);
        let transmission_time = now.add_timeslots(MLE_BROADCAST_TX_AHEAD_TIMESLOTS);
        if network_broadcast_due(transmission_time, next_broadcast) {
            broadcasts.push(transmission_time);
            next_broadcast =
                Some(transmission_time.add_timeslots(MLE_BROADCAST_INTERVAL_TIMESLOTS));
        }
    }

    assert!(broadcasts.len() >= 4);
    assert!(broadcasts.iter().all(|time| time.t == 1));
    for pair in broadcasts.windows(2) {
        assert_eq!(pair[1].age(pair[0]), MLE_BROADCAST_INTERVAL_TIMESLOTS);
    }
    assert_eq!(broadcasts[0].f, 2);
    assert_eq!(broadcasts[1].m, 6);
    assert_eq!(broadcasts[2].m, 11);
}

fn neighbour(ca: u8, station: &str, service_flags: u16, synchronized: bool) -> NeighbourCell {
    NeighbourCell {
        cell_identifier_ca: ca,
        station_id: station.to_string(),
        report: SystemInfoReport {
            info: SystemInfo {
                report_version: 1,
                cell: CellConfig {
                    config_version: 1,
                    mcc: 204,
                    mnc: 1337,
                    location_area: 42,
                    authentication_required: false,
                    aie: CellAieConfig { enabled: false, sc1_allowed: true, sc2: None },
                },
                main_carrier: 1521,
                frequency_band: 4,
                frequency_offset_hz: 0,
                duplex_spacing_id: 0,
                reverse_operation: false,
                colour_code: 1,
                system_code: 3,
                service_flags,
                ms_txpwr_max_cell: 4,
                rxlev_access_min: 3,
                subscriber_class: 65535,
                cell_load_ca: 2,
                synchronized,
                tdma_frame_offset: 9,
            },
            neighbour_station_ids: Vec::new(),
        },
    }
}

fn snapshot(version: u64, n: u8) -> NeighbourCellSnapshot {
    NeighbourCellSnapshot {
        directory_version: version,
        neighbours: (0..n).map(|i| neighbour(i, &format!("station{}", i), 0, false)).collect(),
    }
}

fn settings(timezone: Option<&str>, time_enabled: bool, load: u8) -> CfgNetworkBroadcast {
    CfgNetworkBroadcast {
        cell_reselect_parameters: 0x1234,
        cell_load_ca: load,
        time_enabled,
        timezone: timezone.map(str::to_string),
    }
}

fn names(list: &[&str]) -> Vec<String> {
    list.iter().map(|name| name.to_string()).collect()
}

#[test]
fn the_carousel_shows_every_neighbour_in_turn() {
    let mut broadcast = MleBroadcast::new();
    let advertised = RuntimeNetworkBroadcast::unset();
    assert_eq!(
        broadcast.send_broadcast(&advertised, None).neighbour_cell_information_for_ca.len(),
        0
    );
    broadcast.replace_neighbours(snapshot(5, 16));
    let mut shown = Vec::new();
    let mut sizes = Vec::new();
    for _ in 0..3 {
        let pdu = broadcast.send_broadcast(&advertised, None);
        sizes.push(pdu.neighbour_cell_information_for_ca.len());
        shown.extend(pdu.neighbour_cell_information_for_ca.iter().map(|n| n.cell_identifier_ca));
    }
    assert_eq!(sizes, vec![7, 7, 2]);
    assert_eq!(shown, (0..16).collect::<Vec<u8>>());
    let again = broadcast.send_broadcast(&advertised, None);
    assert_eq!(again.neighbour_cell_information_for_ca[0].cell_identifier_ca, 0);
    // An older directory is ignored, one of the same version is not.
    broadcast.replace_neighbours(snapshot(4, 1));
    assert_eq!(broadcast.neighbour_station_id(9), Some("station9"));
    broadcast.replace_neighbours(snapshot(5, 1));
    assert_eq!(broadcast.neighbour_station_id(9), None);
    assert_eq!(broadcast.neighbour_station_id(0), Some("station0"));
}

#[test]
fn a_neighbour_tells_its_services_and_its_offset() {
    let services = BsServiceDetails {
        registration: true,
        deregistration: false,
        priority_cell: true,
        no_minimum_mode: false,
        migration: true,
        system_wide_services: true,
        voice_service: false,
        circuit_mode_data_service: true,
        sndcp_service: false,
        aie_service: true,
        advanced_link: false,
    };
    let air = neighbour_to_air(&neighbour(3, "a", services.flags(), true));
    assert_eq!(air.bs_service_details, Some(services));
    assert_eq!(air.tdma_frame_offset, Some(9));
    assert_eq!(air.cell_reselection_types_supported, 2);
    assert_eq!((air.mcc, air.mnc, air.location_area), (Some(204), Some(1337), Some(42)));
    assert_eq!(neighbour_to_air(&neighbour(3, "a", 0, false)).tdma_frame_offset, None);
}

#[test]
fn settings_are_checked() {
    let broadcast = MleBroadcast::new();
    let mut advertised = RuntimeNetworkBroadcast::unset();
    let many: Vec<String> = (0..32).map(|i| format!("s{}", i)).collect();
    let mut refused = |ids: Vec<String>, cfg: CfgNetworkBroadcast| {
        broadcast.apply_runtime_update(&mut advertised, ids, cfg).unwrap_err()
    };
    let length = "neighbour IDs must be non-empty and contain at most 31 entries";
    assert_eq!(refused(many, settings(None, false, 0)), length);
    assert_eq!(refused(names(&["a", " \t"]), settings(None, false, 0)), length);
    assert_eq!(
        refused(names(&["a", "b", "a"]), settings(None, false, 0)),
        "neighbour IDs must be unique"
    );
    assert_eq!(refused(names(&["a"]), settings(None, false, 4)), "cell_load_ca must be 0-3");
    assert_eq!(
        refused(names(&["a"]), settings(None, true, 3)),
        "timezone is required while time broadcasting is enabled"
    );
    assert_eq!(
        refused(names(&["a"]), settings(Some("Europe/Nowhere"), true, 3)),
        "timezone must be a valid IANA timezone"
    );
    assert_eq!(advertised.version, 0);
    // A name that is not used need not exist.
    let version = broadcast.apply_runtime_update(
        &mut advertised,
        names(&["a", " b "]),
        settings(Some("Europe/Nowhere"), false, 3),
    );
    assert_eq!(version, Ok(1));
    let version = broadcast.apply_runtime_update(
        &mut advertised,
        names(&[]),
        settings(Some("Europe/Amsterdam"), true, 0),
    );
    assert_eq!(version, Ok(2));
    assert!(advertised.tells_time());
    advertised.version = u64::MAX;
    let version = broadcast.apply_runtime_update(
        &mut advertised,
        names(&[]),
        settings(None, false, 0),
    );
    assert_eq!(version, Ok(u64::MAX));
    assert_eq!(check_settings(&names(&["a"]), &settings(None, false, 0), true, true), Some(length));
    assert_eq!(check_settings(&names(&["a"]), &settings(None, false, 0), false, false), None);
}

fn port() -> MlePort {
    MlePort { queue: Vec::new(), advertised: RuntimeNetworkBroadcast::unset() }
}

fn bits(text: &str) -> BitBuffer {
    BitBuffer::from_bits(text.chars().map(|c| c == '1').collect())
}

fn text(bits: &[bool]) -> String {
    bits.iter().map(|bit| if *bit { '1' } else { '0' }).collect()
}

fn tick(mle: &mut MleBs, port: &mut MlePort, ts: TdmaTime, snapshots: Vec<NeighbourCellSnapshot>) {
    mle.tick_start(port, ts, snapshots, Vec::new());
    mle.offer_broadcast(port, None);
}

#[test]
fn uplink_pdus_go_to_their_entity() {
    let mut mle = MleBs::new();
    let mut port = port();
    let head = UplinkHead { address: TetraAddress::issi(7), endpoint_id: 1, link_id: 2 };
    for code in ["001", "010", "100", "101", "110", "000", "11"] {
        let sdu = if code.len() == 3 { format!("{}10", code) } else { code.to_string() };
        mle.rx_tla_data_ind_bl(&mut port, head, bits(&sdu));
    }
    assert_eq!(port.queue.len(), 4);
    assert!(matches!(&port.queue[0], MleMessage::ToMm { sdu, .. } if sdu.get_pos() == 3));
    assert!(matches!(&port.queue[1], MleMessage::ToCmce { .. }));
    assert!(matches!(&port.queue[2], MleMessage::ToSndcp { .. }));
    assert!(matches!(&port.queue[3], MleMessage::ToMle { .. }));
    assert_eq!(MleProtocolDiscriminator::from_raw(6), Some(MleProtocolDiscriminator::TetraManagementEntity));
    assert_eq!(MleProtocolDiscriminator::from_raw(7), None);
}

fn prepare(ca: Option<u8>, sdu: Option<EmbeddedMm>) -> MleUplinkPdu {
    MleUplinkPdu::UPrepare(Some(UPrepare { cell_identifier_ca: ca, sdu }))
}

fn demand(kind: Option<LocationUpdateType>) -> Option<EmbeddedMm> {
    Some(EmbeddedMm { sdu: bits("0010111"), location_update_type: kind })
}

const FORWARD: LocationUpdateType = LocationUpdateType::ServiceRestorationRoamingLocationUpdating;

#[test]
fn a_change_of_cells_is_prepared_and_answered() {
    let mut mle = MleBs::new();
    let mut port = port();
    let now = TdmaTime::default();
    tick(&mut mle, &mut port, now, vec![snapshot(1, 3)]);
    let address = TetraAddress::issi(7);
    let head = UplinkHead { address, endpoint_id: 1, link_id: 2 };
    mle.rx_tla_mle_pdu(&mut port, head, prepare(Some(2), demand(Some(FORWARD))));
    match &port.queue[0] {
        MleMessage::ToMm { sdu, target, .. } => {
            assert_eq!(target.as_deref(), Some("station2"));
            assert_eq!(text(&sdu.to_bits()), "0010111");
        }
        other => panic!("{:?}", other),
    }
    let seamless =
        SeamlessHandover { carrier: 1600, ts1: false, ts2: true, ts3: false, ts4: false, usage: 5 };
    mle.rx_lmm_mle_unitdata_req(&mut port, address, &bits("010111"), Some(seamless), None);
    match &port.queue[1] {
        MleMessage::Downlink { pdu: MlePdu::DNewCell { channel_command_valid, sdu }, chan_alloc, .. } => {
            assert_eq!(*channel_command_valid, 0);
            assert_eq!(text(sdu.as_ref().unwrap()), "010111");
            let channel = chan_alloc.unwrap();
            assert_eq!((channel.carrier, channel.usage), (Some(1600), Some(5)));
            assert_eq!(channel.timeslots, (false, true, false, false));
            assert!(channel.cell_change_flag);
        }
        other => panic!("{:?}", other),
    }
    // The same PDU again is an ordinary one.
    mle.rx_lmm_mle_unitdata_req(&mut port, address, &bits("010111"), None, Some(9));
    match &port.queue[2] {
        MleMessage::Link { head, sdu } => {
            assert_eq!(text(sdu), "001010111");
            assert_eq!(head.receipt, Some(9));
            assert_eq!(head.layer2service, Layer2Service::Acknowledged);
        }
        other => panic!("{:?}", other),
    }
    mle.rx_tla_mle_pdu(&mut port, head, prepare(Some(2), demand(Some(FORWARD))));
    mle.rx_lmm_mle_unitdata_req(&mut port, address, &bits("011100"), None, None);
    assert!(matches!(
        &port.queue[4],
        MleMessage::Downlink { pdu: MlePdu::DPrepareFail { fail_cause: 1, sdu: Some(_) }, .. }
    ));
}

#[test]
fn a_change_of_cells_fails_for_each_of_its_reasons() {
    let mut mle = MleBs::new();
    let mut port = port();
    tick(&mut mle, &mut port, TdmaTime::default(), vec![snapshot(1, 3)]);
    let head = UplinkHead { address: TetraAddress::issi(7), endpoint_id: 1, link_id: 2 };
    let other_type = Some(LocationUpdateType::ItsiAttach);
    let short = Some(EmbeddedMm { sdu: bits("001"), location_update_type: Some(FORWARD) });
    let foreign = Some(EmbeddedMm { sdu: bits("0011000"), location_update_type: Some(FORWARD) });
    for pdu in [
        MleUplinkPdu::UPrepare(None),
        prepare(Some(9), demand(Some(FORWARD))),
        prepare(Some(2), demand(other_type)),
        prepare(Some(2), demand(None)),
        prepare(Some(2), short),
        prepare(Some(2), foreign),
    ] {
        mle.rx_tla_mle_pdu(&mut port, head, pdu);
    }
    assert_eq!(port.queue.len(), 6);
    assert!(port.queue.iter().all(|message| matches!(
        message,
        MleMessage::Downlink { pdu: MlePdu::DPrepareFail { fail_cause: 1, sdu: None }, .. }
    )));
    port.queue.clear();
    mle.rx_tla_mle_pdu(&mut port, head, prepare(None, None));
    mle.rx_tla_mle_pdu(&mut port, head, prepare(Some(2), None));
    mle.rx_tla_mle_pdu(&mut port, head, MleUplinkPdu::Other);
    assert_eq!(port.queue.len(), 2);
    assert!(port.queue.iter().all(|message| matches!(
        message,
        MleMessage::Downlink { pdu: MlePdu::DNewCell { channel_command_valid: 1, sdu: None }, .. }
    )));
}

#[test]
fn a_change_of_cells_times_out() {
    let mut mle = MleBs::new();
    let mut port = port();
    let now = TdmaTime::default();
    tick(&mut mle, &mut port, now, vec![snapshot(1, 3)]);
    let head = UplinkHead { address: TetraAddress::issi(7), endpoint_id: 1, link_id: 2 };
    mle.rx_tla_mle_pdu(&mut port, head, prepare(Some(2), demand(Some(FORWARD))));
    port.queue.clear();
    tick(&mut mle, &mut port, now.add_timeslots(T370_TIMESLOTS - 2), Vec::new());
    assert!(!port.queue.iter().any(|m| matches!(m, MleMessage::Downlink { .. })));
    tick(&mut mle, &mut port, now.add_timeslots(T370_TIMESLOTS), Vec::new());
    assert!(port.queue.iter().any(|m| matches!(
        m,
        MleMessage::Downlink { pdu: MlePdu::DPrepareFail { .. }, address, .. } if address.ssi == 7
    )));
}

fn link_head(ssi: u32, service: Layer2Service) -> LinkHead {
    LinkHead {
        layer2service: service,
        main_address: TetraAddress::issi(ssi),
        link_id: 3,
        endpoint_id: 4,
        stealing_permission: true,
        chan_alloc: None,
        associated_channel: None,
        receipt: None,
    }
}

#[test]
fn a_restoration_is_answered_once() {
    let mut mle = MleBs::new();
    let mut port = port();
    let head = UplinkHead { address: TetraAddress::issi(7), endpoint_id: 1, link_id: 2 };
    mle.rx_tla_mle_pdu(&mut port, head, MleUplinkPdu::URestore(None));
    assert!(matches!(
        &port.queue[0],
        MleMessage::Downlink { pdu: MlePdu::DRestoreFail { fail_cause: 1 }, .. }
    ));
    mle.rx_tla_mle_pdu(&mut port, head, MleUplinkPdu::URestore(Some(bits("1010"))));
    assert!(matches!(&port.queue[1], MleMessage::ToCmce { .. }));
    mle.rx_lcmc_mle_unitdata_req(&mut port, link_head(7, Layer2Service::Unacknowledged), &bits("11"));
    assert!(matches!(
        &port.queue[2],
        MleMessage::Downlink { pdu: MlePdu::DRestoreAck { .. }, .. }
    ));
    mle.rx_lcmc_mle_unitdata_req(&mut port, link_head(7, Layer2Service::Unacknowledged), &bits("11"));
    match &port.queue[3] {
        MleMessage::Link { head, sdu } => {
            assert_eq!(text(sdu), "01011");
            assert_eq!(head.layer2service, Layer2Service::Unacknowledged);
            assert!(head.stealing_permission);
        }
        other => panic!("{:?}", other),
    }
    mle.rx_tla_mle_pdu(&mut port, head, MleUplinkPdu::URestore(Some(bits("1010"))));
    mle.rx_lcmc_mle_unitdata_req(&mut port, link_head(7, Layer2Service::Acknowledged), &bits(""));
    assert!(matches!(
        &port.queue[5],
        MleMessage::Downlink { pdu: MlePdu::DRestoreFail { .. }, .. }
    ));
}

#[test]
fn the_broadcast_follows_the_settings() {
    let mut mle = MleBs::new();
    let mut port = port();
    let update = SettingsUpdate {
        handle: 5,
        neighbour_ids: names(&["a"]),
        broadcast: settings(Some("Europe/Amsterdam"), true, 2),
    };
    let broken = SettingsUpdate {
        handle: 6,
        neighbour_ids: names(&["a"]),
        broadcast: settings(None, false, 9),
    };
    // Timeslot 4: the broadcast goes out on timeslot 1 of the next frame.
    let ts = TdmaTime { h: 0, m: 1, f: 1, t: 4 };
    mle.tick_start(&mut port, ts, vec![snapshot(1, 2)], vec![update, broken]);
    assert!(port.advertised.tells_time());
    mle.offer_broadcast(&mut port, Some(77));
    assert!(matches!(
        &port.queue[0],
        MleMessage::SettingsAnswer { handle: 5, version: 1, error: None }
    ));
    assert!(matches!(
        &port.queue[1],
        MleMessage::SettingsAnswer { handle: 6, version: 1, error: Some("cell_load_ca must be 0-3") }
    ));
    match &port.queue[2] {
        MleMessage::Broadcast(pdu) => {
            assert_eq!(pdu.tetra_network_time, Some(77));
            assert_eq!(pdu.cell_load_ca, 2);
            assert_eq!(pdu.cell_re_select_parameters, 0x1234);
            assert_eq!(pdu.neighbour_cell_information_for_ca.len(), 2);
        }
        other => panic!("{:?}", other),
    }
    port.queue.clear();
    for n in 1..MLE_BROADCAST_INTERVAL_TIMESLOTS {
        tick(&mut mle, &mut port, ts.add_timeslots(n), Vec::new());
    }
    assert!(port.queue.is_empty());
    tick(&mut mle, &mut port, ts.add_timeslots(MLE_BROADCAST_INTERVAL_TIMESLOTS), Vec::new());
    assert!(matches!(&port.queue[0], MleMessage::Broadcast(pdu) if pdu.tetra_network_time.is_none()));
}
