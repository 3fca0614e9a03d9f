use tetra_bluestation::bluestation::subscribers::SubscriberRegistry;
use tetra_bluestation::cmce::cc_bs::{CcBsSubentity, CcPort};
use tetra_bluestation::cmce::cc_model::{CircuitMgrCmd, SubscriberAction};
use tetra_bluestation::cmce::circuit::TimeslotAllocator;
use tetra_bluestation::cmce::dispatch::{
    handle_swmi_action, run_tasks, tick_start, CmceMessage, CmcePort, SwmiAction,
};
use tetra_bluestation::cmce::pdu::{CallMessage, CcMessage, DownlinkPdu, SwmiLink};
use tetra_bluestation::cmce::sds_bs::{SdsBsSubentity, SdsMessage, SdsPort, SdsSwmiMessage};
use tetra_bluestation::swmi::SwmiEndpoint;
use tetra_bluestation::tdma::TdmaTime;

fn port() -> CmcePort {
    CmcePort {
        cc: CcPort {
            queue: Vec::new(),
            timeslots: TimeslotAllocator::default(),
            swmi: SwmiLink::Online { accepting: true },
            brew: Vec::new(),
            main_carrier: 1521,
        },
        sds: SdsPort {
            queue: Vec::new(),
            link: SwmiEndpoint { present: true, online: true, accepting: true },
        },
        handed: Vec::new(),
    }
}

fn registry() -> SubscriberRegistry {
    let mut reg = SubscriberRegistry::new();
    reg.register(7);
    reg.affiliate(7, 91);
    reg
}

fn station(port: &mut CmcePort) -> CcBsSubentity {
    let mut cc = CcBsSubentity::new();
    cc.handle_subscriber_update(&mut port.cc, SubscriberAction::Register, 7, &vec![], &vec![], None);
    cc.handle_subscriber_update(
        &mut port.cc,
        SubscriberAction::Affiliate,
        7,
        &vec![91],
        &vec![4],
        None,
    );
    port.cc.queue.clear();
    cc
}

fn status(status: u16) -> SwmiAction {
    SwmiAction::ShortData(SdsSwmiMessage::StatusDeliver { source_issi: 1, destination_ssi: 7, status })
}

fn call(call_id: u64) -> SwmiAction {
    SwmiAction::Call(CallMessage::GroupCallStart {
        call_id,
        owner_itsi: 8,
        gssi: 91,
        priority: 3,
        floor_itsi: 8,
        acknowledged: false,
    })
}

fn status_at(message: &CmceMessage) -> Option<u16> {
    match message {
        CmceMessage::ShortData(SdsMessage::Status { status, .. }) => Some(*status),
        _ => None,
    }
}

#[test]
fn messages_are_handed_on_in_the_order_of_what_came_in() {
    let mut port = port();
    let mut cc = station(&mut port);
    let mut sds = SdsBsSubentity::new();
    let actions = vec![status(11), call(1000), status(12)];
    tick_start(&mut cc, &mut sds, &mut port, &registry(), TdmaTime::default(), actions);
    assert!(port.cc.queue.is_empty() && port.sds.queue.is_empty());
    let last = port.handed.len() - 1;
    assert!(last >= 2);
    assert_eq!(status_at(&port.handed[0]), Some(11));
    assert_eq!(status_at(&port.handed[last]), Some(12));
    for message in &port.handed[1..last] {
        assert!(matches!(message, CmceMessage::Call(_)));
    }
    assert!(port.handed.iter().any(|message| matches!(
        message,
        CmceMessage::Call(CcMessage::Downlink(request))
            if matches!(request.pdu, DownlinkPdu::DSetup { .. })
    )));
}

#[test]
fn each_entity_takes_its_own() {
    let mut port = port();
    let mut cc = station(&mut port);
    let mut sds = SdsBsSubentity::new();
    handle_swmi_action(&mut cc, &mut sds, &mut port, &registry(), status(11));
    assert_eq!(port.handed.len(), 1);
    assert_eq!(status_at(&port.handed[0]), Some(11));
    port.handed.clear();
    // A task for a call that there is not changes nothing.
    let task = CircuitMgrCmd::SendDSetup { call_id: 9, usage: 4, ts: 2 };
    run_tasks(&mut cc, &sds, &mut port, &vec![task], &vec![]);
    assert!(port.handed.is_empty());
}
