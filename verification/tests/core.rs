use tetra_bluestation::aie::{
    clear_mm_request, sc2_resource_request, AieAlgorithm, AieRequest, AieScope, AieSubject,
    Sc2KeyIdentifier,
};
use tetra_bluestation::bitbuffer::BitBuffer;
use tetra_bluestation::bluestation::gateways::{DmGatewayRegistry, DmMsRouteAddress};
use tetra_bluestation::cmce::circuit::{TimeslotAllocator, TimeslotOwner};
use tetra_bluestation::cmce::pdu::DisconnectCause;
use tetra_bluestation::mm::pdu::EnergySavingMode;
use tetra_bluestation::table::Table;
use tetra_bluestation::tdma::TdmaTime;

#[test]
fn slots_are_counted_across_the_hyperframe() {
    let last = TdmaTime { h: 0xffff, m: 60, f: 18, t: 4 };
    let first = TdmaTime { h: 0, m: 1, f: 1, t: 1 };
    assert_eq!(last.add_timeslots(1), first);
    assert_eq!(first.add_timeslots(-1), last);
    assert_eq!(first.age(last), 1);
    assert_eq!(last.age(first), -1);
    assert_eq!(first.add_timeslots(72), TdmaTime { h: 0, m: 2, f: 1, t: 1 });
    assert_eq!(first.add_timeslots(4320), TdmaTime { h: 1, m: 1, f: 1, t: 1 });
    assert_eq!(first.add_timeslots(2).forward_to_timeslot(1), TdmaTime { h: 0, m: 1, f: 2, t: 1 });
    assert_eq!(first.forward_to_timeslot(1), first);
}

#[test]
fn bits_are_written_and_read_from_the_first() {
    let mut buffer = BitBuffer::empty();
    buffer.write_bits(0b10110, 5);
    buffer.write_bits(0xabc, 12);
    buffer.write_bit(true);
    assert_eq!(buffer.get_len(), 18);
    assert_eq!(buffer.to_bytes(), vec![0b1011_0101, 0b0101_1110, 0b0100_0000]);
    buffer.seek(0);
    assert_eq!(buffer.read_bits(5), Some(0b10110));
    assert_eq!(buffer.peek_bits(12), Some(0xabc));
    assert_eq!(buffer.read_bits(14), None);
    assert_eq!(buffer.get_pos(), 5);
    assert_eq!(buffer.get_len_remaining(), 13);
}

#[test]
fn a_mask_undoes_itself() {
    let mut buffer = BitBuffer::from_bytes(&vec![0x0f, 0xf0]);
    let mask = vec![0xff, 0xa5, 0x5a];
    buffer.seek(4);
    assert!(buffer.xor_bytearr(&mask, 1, 8).is_some());
    assert_eq!(buffer.to_bytes(), vec![0x0f ^ 0x0a, 0xf0 ^ 0x50]);
    buffer.seek(4);
    assert!(buffer.xor_bytearr(&mask, 1, 8).is_some());
    assert_eq!(buffer.to_bytes(), vec![0x0f, 0xf0]);
    buffer.seek(12);
    assert!(buffer.xor_bytearr(&mask, 0, 5).is_none());
}

#[test]
fn timeslots_are_handed_out_lowest_first() {
    let mut slots = TimeslotAllocator::default();
    assert_eq!(slots.allocate_any(TimeslotOwner::Cmce), Some(2));
    assert_eq!(slots.allocate_any(TimeslotOwner::Brew), Some(3));
    assert_eq!(slots.allocate_any(TimeslotOwner::Cmce), Some(4));
    assert_eq!(slots.allocate_any(TimeslotOwner::Cmce), None);
    assert!(!slots.release(TimeslotOwner::Cmce, 3));
    assert!(slots.release(TimeslotOwner::Brew, 3));
    assert_eq!(slots.allocate_any(TimeslotOwner::Cmce), Some(3));
}

#[test]
fn requests_are_compared_by_their_protection() {
    let clear = clear_mm_request(7);
    let protected = sc2_resource_request(7);
    assert!(!clear.is_encrypted());
    assert!(protected.is_encrypted());
    assert!(clear.same_protection_as(clear_mm_request(8)));
    assert!(!protected.same_protection_as(sc2_resource_request(8)));
    assert!(protected.same_protection_as(protected.with_scope(AieScope::MacData)));
    assert!(!protected.same_protection_as(clear));
    assert_eq!(
        protected,
        AieRequest::sc2(AieSubject::Individual { issi: 7 }, AieScope::MacResource)
    );
    assert!(Sc2KeyIdentifier::new(AieAlgorithm::Tea1, 31, 1).is_some());
    assert!(Sc2KeyIdentifier::new(AieAlgorithm::Tea1, 32, 1).is_none());
}

fn address(ssi: u32) -> DmMsRouteAddress {
    DmMsRouteAddress { ssi, mcc: None, mnc: None }
}

#[test]
fn an_address_is_reached_through_its_gateways() {
    let now = TdmaTime::default();
    let mut registry = DmGatewayRegistry::default();
    registry.activate(7, None, &vec![address(300), address(301)], now);
    registry.activate(8, None, &vec![address(301)], now);
    assert_eq!(registry.gateways_for(address(301)), vec![7, 8]);
    assert_eq!(registry.gateway_for_ssi(300), Some((7, address(300))));
    registry.remove_addresses(7, &vec![address(301)], now);
    assert_eq!(registry.gateways_for(address(301)), vec![8]);
    registry.add_addresses(9, &vec![address(400)], now);
    assert_eq!(registry.gateway_for_ssi(400), None);
    registry.replace_addresses(8, &vec![address(500)], now);
    assert_eq!(registry.addresses_of(8), vec![address(500)]);
    registry.touch(8, now.add_timeslots(5));
    assert_eq!(registry.session(8).map(|s| s.last_seen), Some(now.add_timeslots(5)));
    let seven = registry.session(7);
    registry.deactivate(8);
    assert!(!registry.is_active(8));
    assert_eq!(registry.session(7), seven);
    assert_eq!(registry.gateway_for_ssi(500), None);
}

#[test]
fn every_gateway_and_address_is_listed_once() {
    let now = TdmaTime::default();
    let mut registry = DmGatewayRegistry::default();
    registry.activate(7, None, &vec![address(300), address(301), address(300)], now);
    registry.activate(8, None, &vec![address(300)], now);
    registry.activate(7, None, &vec![address(300), address(301)], now);
    assert_eq!(registry.gateways_for(address(300)), vec![8, 7]);
    assert_eq!(registry.addresses_of(7), vec![address(300), address(301)]);
    assert!(registry.gateways_for(address(302)).is_empty());
    assert!(registry.addresses_of(9).is_empty());
}

#[test]
fn the_lowest_gateway_is_chosen() {
    let now = TdmaTime::default();
    let mut registry = DmGatewayRegistry::default();
    registry.activate(9, None, &vec![address(300)], now);
    registry.activate(4, None, &vec![address(300)], now);
    registry.activate(6, None, &vec![address(300)], now);
    assert_eq!(registry.gateway_for_ssi(300).map(|found| found.0), Some(4));
}

#[test]
fn tables_keep_one_value_for_a_key() {
    let mut table: Table<u32, u8> = Table::new();
    table.insert(1, 10);
    table.insert(2, 20);
    table.insert(1, 11);
    assert_eq!(table.get(1), Some(11));
    assert_eq!(table.key_list(), vec![1, 2]);
    assert_eq!(table.remove(1), Some(11));
    assert_eq!(table.remove(1), None);
    assert_eq!(table.get(2), Some(20));
    assert_eq!(table.len(), 1);
}

#[test]
fn codes_are_read_back() {
    for code in 0..=255u8 {
        if let Some(cause) = DisconnectCause::from_code(code) {
            assert_eq!(cause.code(), code);
        }
    }
    assert_eq!(
        DisconnectCause::from_code_or(200, DisconnectCause::ExpiryOfTimer),
        DisconnectCause::ExpiryOfTimer
    );
    for code in 0..8u64 {
        let mode = EnergySavingMode::from_code(code).unwrap();
        assert_eq!(mode.code() as u64, code);
    }
    assert_eq!(EnergySavingMode::from_code(8), None);
}
