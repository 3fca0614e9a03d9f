use tetra_bluestation::bluestation::subscribers::SubscriberRegistry;
use tetra_bluestation::cmce::sds_bs::{
    sds_tl_context, user_data_from_wire, DeliveryKey, FinishedDelivery, SdsBsSubentity, SdsMessage,
    SdsPort, SdsSwmiMessage, SdsUserData, UStatus, USdsData, SWMI_ISSI,
};
use tetra_bluestation::net_swmi::worker::SwmiMessageKind;
use tetra_bluestation::swmi::SwmiEndpoint;

fn port(online: bool, accepting: bool) -> SdsPort {
    SdsPort { queue: Vec::new(), link: SwmiEndpoint { present: true, online, accepting } }
}

fn registry() -> SubscriberRegistry {
    let mut reg = SubscriberRegistry::new();
    reg.register(7);
    reg.register(8);
    reg.affiliate(8, 91);
    reg
}

fn report_wanted() -> SdsUserData {
    SdsUserData::Type4(32, vec![0x82, 0x04, 0x33, 0x41])
}

fn to(ssi: u32, data: SdsUserData) -> USdsData {
    USdsData {
        called_party_ssi: Some(ssi),
        has_called_party_extension: false,
        has_external_subscriber_number: false,
        has_dm_ms_address: false,
        user_defined_data: data,
    }
}

fn status(ssi: Option<u32>, value: u16) -> UStatus {
    UStatus {
        called_party_ssi: ssi,
        has_called_party_extension: false,
        has_external_subscriber_number: false,
        has_dm_ms_address: false,
        pre_coded_status: value,
    }
}

#[test]
fn short_data_is_read_back_from_the_wire() {
    for (data, bytes, len) in [
        (SdsUserData::Type1(0x1234), vec![0x12, 0x34], 16u16),
        (SdsUserData::Type2(0x12345678), vec![0x12, 0x34, 0x56, 0x78], 32),
        (SdsUserData::Type3(0x1), vec![0, 0, 0, 0, 0, 0, 0, 1], 64),
        (SdsUserData::Type4(9, vec![0xab, 0x80]), vec![0xab, 0x80], 9),
    ] {
        assert_eq!(data.to_arr(), bytes);
        assert_eq!(data.length_bits(), len);
        let read = user_data_from_wire(data.type_identifier(), len, bytes).unwrap();
        assert_eq!(format!("{:?}", read), format!("{:?}", data));
    }
    assert!(user_data_from_wire(0, 16, vec![1]).is_none());
    assert!(user_data_from_wire(0, 15, vec![1, 2]).is_none());
    assert!(user_data_from_wire(3, 17, vec![1, 2]).is_none());
    assert!(user_data_from_wire(4, 16, vec![1, 2]).is_none());
    assert_eq!(sds_tl_context(&report_wanted()), (Some(0x82), Some(0x33)));
    assert_eq!(sds_tl_context(&SdsUserData::Type4(24, vec![2, 4, 0x33])), (None, None));
}

#[test]
fn a_connected_station_hands_short_data_on() {
    let mut sds = SdsBsSubentity::new();
    let mut port = port(true, true);
    sds.route_rf_deliver(&mut port, &registry(), 7, to(8, SdsUserData::Type1(5)));
    sds.route_rf_deliver(&mut port, &registry(), 7, to(91, SdsUserData::Type1(5)));
    let told: Vec<_> = port
        .queue
        .iter()
        .map(|m| match m {
            SdsMessage::Submit { command_id, destination_ssi, destination_is_group, data, .. } => {
                (*command_id, *destination_ssi, *destination_is_group, data.clone())
            }
            other => panic!("{:?}", other),
        })
        .collect();
    assert_eq!(told, vec![(1, 8, false, vec![0, 5]), (2, 91, true, vec![0, 5])]);
    let mut external = to(8, SdsUserData::Type1(5));
    external.has_external_subscriber_number = true;
    sds.route_rf_deliver(&mut port, &registry(), 7, external);
    assert_eq!(port.queue.len(), 2);
    // A queue that takes nothing is a failed delivery.
    port.link.accepting = false;
    sds.route_rf_deliver(&mut port, &registry(), 7, to(8, SdsUserData::Type1(5)));
    assert!(matches!(
        port.queue[2],
        SdsMessage::Status { source_issi: SWMI_ISSI, destination_ssi: 7, status: 0xfe01, .. }
    ));
}

#[test]
fn a_station_alone_delivers_and_reports() {
    let mut sds = SdsBsSubentity::new();
    let mut port = port(false, true);
    sds.route_rf_deliver(&mut port, &registry(), 7, to(8, report_wanted()));
    let key = match &port.queue[0] {
        SdsMessage::Data { source_issi: 7, destination_ssi: 8, to_group: false, report, .. } => {
            report.unwrap()
        }
        other => panic!("{:?}", other),
    };
    assert_eq!(key, DeliveryKey { central: false, id: 1 });
    sds.tick_start(&mut port, &vec![FinishedDelivery { key, acknowledged: false }]);
    match &port.queue[1] {
        SdsMessage::Data { source_issi: SWMI_ISSI, destination_ssi: 7, data, .. } => {
            assert_eq!(format!("{:?}", data), format!("{:?}", SdsUserData::Type4(32, vec![0x82, 0x10, 0x32, 0x33])));
        }
        other => panic!("{:?}", other),
    }
    // It is settled once.
    sds.tick_start(&mut port, &vec![FinishedDelivery { key, acknowledged: false }]);
    assert_eq!(port.queue.len(), 2);
    sds.route_rf_deliver(&mut port, &registry(), 7, to(91, SdsUserData::Type1(5)));
    assert!(matches!(port.queue[2], SdsMessage::Data { to_group: true, report: None, .. }));
    sds.route_rf_deliver(&mut port, &registry(), 7, to(99, report_wanted()));
    assert!(matches!(port.queue[3], SdsMessage::Status { status: 0xfe05, destination_ssi: 7, .. }));
}

#[test]
fn a_status_is_routed() {
    let mut sds = SdsBsSubentity::new();
    let mut alone = port(false, true);
    sds.route_status_deliver(&mut alone, &registry(), 7, &status(Some(8), 33000));
    sds.route_status_deliver(&mut alone, &registry(), 7, &status(Some(9), 33000));
    sds.route_status_deliver(&mut alone, &registry(), 7, &status(None, 33000));
    assert_eq!(alone.queue.len(), 2);
    assert!(matches!(alone.queue[0], SdsMessage::Status { source_issi: 7, destination_ssi: 8, status: 33000, .. }));
    assert!(matches!(alone.queue[1], SdsMessage::Status { source_issi: SWMI_ISSI, destination_ssi: 7, status: 0xfe05, .. }));
    let mut central = port(true, true);
    sds.route_status_deliver(&mut central, &registry(), 7, &status(Some(9), 33000));
    assert!(matches!(central.queue[0], SdsMessage::StatusSubmit { command_id: 1, source_issi: 7, destination_ssi: 9, status: 33000 }));
}

fn deliver(transaction_id: u64, ssi: u32, group: bool) -> SdsSwmiMessage {
    SdsSwmiMessage::Deliver {
        transaction_id,
        source_issi: 1000,
        destination_ssi: ssi,
        destination_is_group: group,
        data_type: 0,
        length_bits: 16,
        data: vec![1, 2],
    }
}

#[test]
fn deliveries_of_the_swmi_are_reported() {
    let mut sds = SdsBsSubentity::new();
    let mut port = port(true, true);
    sds.handle_swmi_action(&mut port, &registry(), deliver(55, 8, false));
    let key = DeliveryKey { central: true, id: 55 };
    assert!(matches!(&port.queue[0], SdsMessage::Data { report: Some(k), .. } if *k == key));
    sds.tick_start(&mut port, &vec![FinishedDelivery { key, acknowledged: true }]);
    assert!(matches!(port.queue[1], SdsMessage::DeliveryResult { transaction_id: 55, destination_issi: 8, delivered: true, cause: 0 }));
    sds.handle_swmi_action(&mut port, &registry(), deliver(56, 99, false));
    assert!(matches!(port.queue[2], SdsMessage::DeliveryResult { transaction_id: 56, delivered: false, cause: 0x3d, .. }));
    sds.handle_swmi_action(&mut port, &registry(), SdsSwmiMessage::Deliver {
        transaction_id: 57,
        source_issi: 1000,
        destination_ssi: 8,
        destination_is_group: false,
        data_type: 0,
        length_bits: 16,
        data: vec![1],
    });
    assert!(matches!(port.queue[3], SdsMessage::DeliveryResult { transaction_id: 57, delivered: false, cause: 0x32, .. }));
    // Without a transaction nothing is reported.
    sds.handle_swmi_action(&mut port, &registry(), deliver(0, 99, false));
    assert_eq!(port.queue.len(), 4);
    sds.handle_swmi_action(&mut port, &registry(), deliver(58, 91, true));
    assert!(matches!(port.queue[4], SdsMessage::Data { to_group: true, report: None, .. }));
}

#[test]
fn failures_and_status_of_the_swmi_reach_the_terminal() {
    let mut sds = SdsBsSubentity::new();
    let mut port = port(true, true);
    for (cause, value) in [(0x2b, 0xfe02), (0x2c, 0xfe06), (0x2d, 0xfe04), (0x33, 0xfe05), (0x3d, 0xfe05), (0x32, 0xfe01)] {
        port.queue.clear();
        sds.handle_swmi_action(&mut port, &registry(), SdsSwmiMessage::Failure {
            originator_issi: 7,
            destination_ssi: 9,
            cause,
            sds_tl_protocol_id: None,
            message_reference: None,
        });
        assert!(matches!(port.queue[0], SdsMessage::Status { status, destination_ssi: 7, .. } if status == value));
    }
    port.queue.clear();
    sds.handle_swmi_action(&mut port, &registry(), SdsSwmiMessage::StatusDeliver { source_issi: 1, destination_ssi: 7, status: 9 });
    sds.handle_swmi_action(&mut port, &registry(), SdsSwmiMessage::StatusDeliver { source_issi: 1, destination_ssi: 91, status: 9 });
    assert!(matches!(port.queue[0], SdsMessage::Status { to_group: false, .. }));
    assert!(matches!(port.queue[1], SdsMessage::Status { to_group: true, .. }));
    assert!(SdsBsSubentity::is_swmi_action(SwmiMessageKind::SdsFailure));
    assert!(!SdsBsSubentity::is_swmi_action(SwmiMessageKind::DgnaCommand));
}

#[test]
fn other_sources_follow_the_same_routes() {
    let mut sds = SdsBsSubentity::new();
    let mut alone = port(false, true);
    sds.rx_sds_from_brew(&mut alone, &registry(), 1000, 8, SdsUserData::Type1(1));
    sds.rx_sds_from_brew(&mut alone, &registry(), 1000, 99, SdsUserData::Type1(1));
    assert_eq!(alone.queue.len(), 1);
    assert!(sds.rx_sds_from_control(&mut alone, &registry(), 1, 91, true, 16, vec![1, 2]));
    assert!(!sds.rx_sds_from_control(&mut alone, &registry(), 1, 99, false, 16, vec![1, 2]));
    assert!(!sds.rx_sds_from_control(&mut alone, &registry(), 1, 8, false, 17, vec![1, 2]));
    let mut central = port(true, true);
    assert!(sds.rx_sds_from_control(&mut central, &registry(), 1, 99, false, 16, vec![1, 2]));
    central.link.accepting = false;
    assert!(!sds.rx_sds_from_control(&mut central, &registry(), 1, 99, false, 16, vec![1, 2]));
    sds.rx_sds_from_brew(&mut central, &registry(), 1000, 8, report_wanted());
    assert!(matches!(&central.queue[1], SdsMessage::Data { source_issi: SWMI_ISSI, destination_ssi: 1000, .. }));
}
