use tetra_bluestation::bitbuffer::BitBuffer;
use tetra_bluestation::bluestation::subscribers::SubscriberRegistry;
use tetra_bluestation::cmce::ss_bs::{
    decode_dgna, encode_dgna, encode_mnemonic_name, DgnaCommand, SsBsSubentity, SsMessage, SsPort,
    ACTION_ASSIGN, ACTION_DEASSIGN, ACTION_INTERROGATE,
};
use tetra_bluestation::net_swmi::worker::SwmiMessageKind;

fn field(buffer: &mut BitBuffer, value: u64, n: usize) {
    buffer.write_bits(value, n);
}

/// An acknowledgement of an assignment or its end.
fn acknowledgement(kind: u64, gssi: u64, result: u64, flag: u64) -> (Vec<u8>, u16) {
    let mut buffer = BitBuffer::empty();
    field(&mut buffer, 22, 6);
    field(&mut buffer, kind, 5);
    field(&mut buffer, 1, 5);
    field(&mut buffer, gssi, 24);
    field(&mut buffer, 0, 1);
    field(&mut buffer, result, 2);
    field(&mut buffer, flag, 1);
    field(&mut buffer, 0, 1);
    (buffer.to_bytes(), buffer.get_len() as u16)
}

#[test]
fn the_pdus_have_their_lengths() {
    for (action, length) in [(ACTION_ASSIGN, 55), (ACTION_DEASSIGN, 43)] {
        let (bytes, bits) = encode_dgna(action, Some(0xff_ffff), &None).unwrap();
        assert_eq!(bits, length);
        assert_eq!(bytes.len(), (length as usize + 7) / 8);
        // What the last byte does not need is zero.
        assert_eq!(bytes[bytes.len() - 1].trailing_zeros() >= (8 - length % 8) as u32, true);
    }
    let (bytes, bits) = encode_dgna(ACTION_INTERROGATE, None, &None).unwrap();
    assert_eq!(bits, 22);
    // 010110 10001 001 0001010 0
    assert_eq!(bytes, vec![0b0101_1010, 0b0010_0100, 0b0101_0000]);
    assert!(encode_dgna(ACTION_ASSIGN, None, &None).is_none());
    assert!(encode_dgna(9, Some(91), &None).is_none());
    let named = encode_dgna(ACTION_ASSIGN, Some(91), &Some("ab".to_string())).unwrap();
    assert_eq!(named.1, 55 + 7 + 8 + 16);
}

#[test]
fn names_are_limited() {
    assert_eq!(encode_mnemonic_name("ab"), Some(vec![0x61, 0x62]));
    assert_eq!(encode_mnemonic_name("\u{20ac}"), None);
}

#[test]
fn acknowledgements_are_read() {
    let (raw, bits) = acknowledgement(8, 91, 1, 0);
    let read = decode_dgna(&raw, bits).unwrap();
    assert_eq!((read.action, read.success, read.cause, read.gssi), (ACTION_ASSIGN, true, 1, Some(91)));
    let (raw, bits) = acknowledgement(10, 91, 1, 0);
    let read = decode_dgna(&raw, bits).unwrap();
    assert_eq!((read.action, read.success), (ACTION_DEASSIGN, false));
    let (raw, bits) = acknowledgement(10, 91, 1, 1);
    assert!(decode_dgna(&raw, bits).unwrap().success);
    assert!(decode_dgna(&raw, bits - 1).is_none());
}

fn ready() -> SubscriberRegistry {
    let mut reg = SubscriberRegistry::new();
    reg.register(7);
    reg.mark_active(7);
    reg
}

fn command(job_id: u64, action: u8, gssi: Option<u32>) -> DgnaCommand {
    DgnaCommand { job_id, itsi: 7, action, gssi, name: None }
}

fn port() -> SsPort {
    SsPort { queue: Vec::new(), submits: true }
}

#[test]
fn a_command_is_sent_and_its_outcome_reported_once() {
    let mut ss = SsBsSubentity::new();
    let mut port = port();
    ss.handle_swmi_action(&mut port, &ready(), command(1, ACTION_ASSIGN, Some(91)));
    assert!(matches!(&port.queue[0], SsMessage::Facility { issi: 7, ss_pdu_bits: 55, .. }));
    let (raw, bits) = acknowledgement(8, 91, 1, 0);
    ss.route_re_deliver(&mut port, 7, &raw, bits);
    ss.route_re_deliver(&mut port, 7, &raw, bits);
    assert_eq!(port.queue.len(), 2);
    assert!(matches!(
        &port.queue[1],
        SsMessage::Outcome { job_id: 1, itsi: 7, action: ACTION_ASSIGN, success: true, cause: 1, .. }
    ));
    // A command that makes no PDU fails at once.
    ss.handle_swmi_action(&mut port, &ready(), command(2, ACTION_ASSIGN, None));
    assert!(matches!(&port.queue[2], SsMessage::Outcome { job_id: 2, success: false, .. }));
}

#[test]
fn a_command_waits_for_the_registration() {
    let mut ss = SsBsSubentity::new();
    let mut port = port();
    let mut reg = ready();
    reg.set_registration_delivery_pending(7, true);
    ss.handle_swmi_action(&mut port, &reg, command(1, ACTION_DEASSIGN, Some(91)));
    ss.tick_start(&mut port, &reg);
    assert!(port.queue.is_empty());
    reg.set_registration_delivery_pending(7, false);
    reg.mark_active(7);
    ss.tick_start(&mut port, &reg);
    ss.tick_start(&mut port, &reg);
    assert!(matches!(port.queue[..], [SsMessage::Facility { issi: 7, ss_pdu_bits: 43, .. }]));
    assert!(SsBsSubentity::is_swmi_action(SwmiMessageKind::DgnaCommand));
    assert!(!SsBsSubentity::is_swmi_action(SwmiMessageKind::SdsDeliver));
}
