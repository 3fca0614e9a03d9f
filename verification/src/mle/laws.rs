//! What the mobile link entity is for, stated of what comes in and what is handed
//! on.
use crate::bitbuffer::BitsView;
use crate::bluestation::network_broadcast::CfgNetworkBroadcast;
use crate::cmce::pdu::{Layer2Service, TetraAddress};
use crate::mle::broadcast::NeighbourView;
use crate::mle::mle_bs::{
    LinkHead, MleMessageView, MlePduView, MleProtocolDiscriminator, MleRun, PrepareView, UplinkHead,
};
use crate::mm::pdu::{LocationUpdateType, SeamlessHandover};
use crate::tdma::TdmaTime;
use vstd::prelude::*;

verus! {

// ---------------------------------------------------------------------------
// The broadcast
// ---------------------------------------------------------------------------

/// A neighbour is broadcast under its own identifier with what its report says of
/// it: the carrier on which it is found is its main carrier, its country, network
/// and location area are those of its configuration, and its power and access
/// parameters are its own. Its frame offset is told exactly where it is
/// synchronized, and forward registration is always offered.
pub proof fn law_neighbour_is_broadcast_as_reported(neighbour: NeighbourView)
    ensures
        ({
            let air = crate::mle::broadcast::on_air(neighbour);
            let report = neighbour.report.info;
            &&& air.cell_identifier_ca == neighbour.cell_identifier_ca
            &&& air.main_carrier_number == report.main_carrier
            &&& air.mcc == Some(report.cell.mcc)
            &&& air.mnc == Some(report.cell.mnc)
            &&& air.location_area == Some(report.cell.location_area)
            &&& air.cell_load_ca == report.cell_load_ca
            &&& air.ms_txpwr_max_cell == Some(report.ms_txpwr_max_cell)
            &&& air.rxlev_access_min == Some(report.rxlev_access_min)
            &&& air.subscriber_class == Some(report.subscriber_class)
            &&& air.synchronized == report.synchronized
            &&& air.tdma_frame_offset is Some <==> report.synchronized
            &&& report.synchronized ==> air.tdma_frame_offset->0 == report.tdma_frame_offset
            &&& air.cell_reselection_types_supported == 2
            &&& air.main_carrier_number_extension is None
            &&& air.timeshare_security_parameters is None
        }),
{
}

/// Two neighbours whose reports differ in the main carrier alone are broadcast
/// with carriers that differ in the same way, and alike in all else.
pub proof fn law_carrier_is_told_apart(one: NeighbourView, other: NeighbourView)
    requires
        one.cell_identifier_ca == other.cell_identifier_ca,
        other.report.info == (crate::net_swmi::protocol::SystemInfo {
            main_carrier: other.report.info.main_carrier,
            ..one.report.info
        }),
    ensures
        ({
            let a = crate::mle::broadcast::on_air(one);
            let b = crate::mle::broadcast::on_air(other);
            &&& a.main_carrier_number - b.main_carrier_number == one.report.info.main_carrier
                - other.report.info.main_carrier
            &&& b == (crate::mle::broadcast::NeighbourCellInformationForCa {
                main_carrier_number: b.main_carrier_number,
                ..a
            })
        }),
{
}

/// The services that are broadcast of a neighbour are the bits of the flags that
/// it reported: from registration, the lowest, up to encryption.
pub proof fn law_services_are_the_bits_of_the_flags(neighbour: NeighbourView)
    ensures
        ({
            let flags = neighbour.report.info.service_flags as int;
            crate::mle::broadcast::on_air(neighbour).bs_service_details matches Some(told) && {
                &&& told.registration <==> flags % 2 == 1
                &&& told.deregistration <==> flags / 2 % 2 == 1
                &&& told.priority_cell <==> flags / 4 % 2 == 1
                &&& told.no_minimum_mode <==> flags / 8 % 2 == 1
                &&& told.migration <==> flags / 16 % 2 == 1
                &&& told.system_wide_services <==> flags / 32 % 2 == 1
                &&& told.voice_service <==> flags / 64 % 2 == 1
                &&& told.circuit_mode_data_service <==> flags / 128 % 2 == 1
                &&& told.sndcp_service <==> flags / 256 % 2 == 1
                &&& told.advanced_link <==> flags / 512 % 2 == 1
                &&& told.aie_service <==> flags / 1024 % 2 == 1
            }
        }),
{
    let flags = neighbour.report.info.service_flags;
    assert(((flags >> 0u16) & 1 == 1) == (flags % 2 == 1) && ((flags >> 1u16) & 1 == 1) == (flags
        / 2 % 2 == 1) && ((flags >> 2u16) & 1 == 1) == (flags / 4 % 2 == 1) && ((flags >> 3u16) & 1
        == 1) == (flags / 8 % 2 == 1) && ((flags >> 4u16) & 1 == 1) == (flags / 16 % 2 == 1) && ((
    flags >> 5u16) & 1 == 1) == (flags / 32 % 2 == 1) && ((flags >> 6u16) & 1 == 1) == (flags / 64
        % 2 == 1) && ((flags >> 7u16) & 1 == 1) == (flags / 128 % 2 == 1) && ((flags >> 8u16) & 1
        == 1) == (flags / 256 % 2 == 1) && ((flags >> 9u16) & 1 == 1) == (flags / 512 % 2 == 1) && (
    (flags >> 10u16) & 1 == 1) == (flags / 1024 % 2 == 1)) by (bit_vector);
}

/// A broadcast goes out exactly in the slots whose successor is a timeslot 1 and
/// that are not earlier than it is due. It names the next neighbours of the
/// directory, in their order, each as itself; it carries the station's own
/// settings; and it tells the time where, and only where, the settings ask for
/// it and name a time zone. The next one is due ninety frames later.
pub proof fn law_broadcast_is_offered_when_due(run: MleRun, local_time: Option<u64>)
    ensures
        ({
            let after = run.broadcast(local_time);
            let slot = run.now.plus(1);
            let due = slot.t == 1 && (run.next_broadcast is Some ==> slot.since(
                run.next_broadcast->0,
            ) >= 0);
            let shown = run.carousel.batch();
            let settings = run.advertised.broadcast;
            &&& !due ==> after == run
            &&& due ==> {
                &&& after.queue.len() == run.queue.len() + 1
                &&& after.queue.drop_last() == run.queue
                &&& after.next_broadcast == Some(slot.plus(360))
                &&& after.queue.last() matches MleMessageView::Broadcast(pdu) && {
                    &&& pdu.cell_re_select_parameters == settings.cell_reselect_parameters
                    &&& pdu.cell_load_ca == settings.cell_load_ca
                    &&& settings.time_enabled && settings.timezone is Some
                        ==> pdu.tetra_network_time == local_time
                    &&& !settings.time_enabled || settings.timezone is None
                        ==> pdu.tetra_network_time is None
                    &&& pdu.neighbours.len() == shown.len()
                    &&& forall|i: int|
                        0 <= i < shown.len() ==> {
                            &&& (#[trigger] pdu.neighbours[i]).cell_identifier_ca
                                == shown[i].cell_identifier_ca
                            &&& pdu.neighbours[i].main_carrier_number
                                == shown[i].report.info.main_carrier
                            &&& pdu.neighbours[i].location_area == Some(
                                shown[i].report.info.cell.location_area,
                            )
                        }
                }
                &&& after.carousel.neighbours == run.carousel.neighbours
                &&& after.carousel.snapshot_version == run.carousel.snapshot_version
            }
            &&& after.advertised == run.advertised && after.preparing == run.preparing
            &&& after.restoring == run.restoring && after.now == run.now
        }),
{
    let after = run.broadcast(local_time);
    if after.queue != run.queue {
        assert(after.queue.drop_last() =~= run.queue);
    }
}

/// A directory that is not older than the one known takes its place whole, and is
/// shown from its start.
pub proof fn law_newer_directory_is_taken(
    run: MleRun,
    version: u64,
    neighbours: Seq<NeighbourView>,
)
    ensures
        ({
            let after = run.informed(seq![(version, neighbours)]);
            &&& version >= run.carousel.snapshot_version ==> {
                &&& after.carousel.snapshot_version == version
                &&& after.carousel.neighbours == neighbours
                &&& after.carousel.next_batch == 0
            }
            &&& version < run.carousel.snapshot_version ==> after.carousel == run.carousel
            &&& after == (MleRun { carousel: after.carousel, ..run })
        }),
{
    let one = seq![(version, neighbours)];
    assert(one.drop_last() =~= Seq::empty());
    assert(run.informed(one.drop_last()) == run);
}

/// New settings are taken exactly if they name at most 31 neighbours, none of
/// them blank and none twice, a load of at most three, and a time zone that there
/// is wherever time is to be told. The answer goes to who asked, with the version
/// that then holds; settings that are refused change nothing.
pub proof fn law_settings_are_taken_or_refused(
    run: MleRun,
    handle: u32,
    neighbours: Seq<String>,
    broadcast: CfgNetworkBroadcast,
)
    ensures
        ({
            let after = run.settings(handle, neighbours, broadcast);
            let blank = exists|i: int|
                0 <= i < neighbours.len() && crate::bluestation::sec_swmi::all_white_space(
                    #[trigger] neighbours[i]@,
                );
            let unique = forall|i: int, j: int|
                0 <= i < j < neighbours.len() ==> neighbours[i]@ != neighbours[j]@;
            let zone = broadcast.timezone is Some && crate::bluestation::config::iana_timezone(
                broadcast.timezone->0@,
            );
            let good = neighbours.len() <= 31 && !blank && unique && broadcast.cell_load_ca <= 3 && (
            broadcast.time_enabled ==> zone);
            &&& after.queue.len() == run.queue.len() + 1
            &&& after.queue.drop_last() == run.queue
            &&& after.queue.last() matches MleMessageView::SettingsAnswer {
                handle: to,
                version,
                error,
            } && {
                &&& to == handle
                &&& version == after.advertised.version
                &&& error is None <==> good
            }
            &&& good ==> after.advertised.neighbours == neighbours && after.advertised.broadcast
                == broadcast && (run.advertised.version < u64::MAX ==> after.advertised.version
                == run.advertised.version + 1)
            &&& !good ==> after.advertised == run.advertised
            &&& after == (MleRun { advertised: after.advertised, queue: after.queue, ..run })
        }),
{
    let after = run.settings(handle, neighbours, broadcast);
    assert(after.queue.drop_last() =~= run.queue);
    let blank = exists|i: int|
        0 <= i < neighbours.len() && crate::bluestation::sec_swmi::all_white_space(
            #[trigger] neighbours[i]@,
        );
    assert(blank == crate::mle::broadcast::some_blank(neighbours)) by {
        if blank {
            let i = choose|i: int|
                0 <= i < neighbours.len() && crate::bluestation::sec_swmi::all_white_space(
                    #[trigger] neighbours[i]@,
                );
            assert(crate::bluestation::sec_swmi::all_white_space(neighbours[i]@));
        }
        if crate::mle::broadcast::some_blank(neighbours) {
            let i = choose|i: int|
                0 <= i < neighbours.len()
                    && #[trigger] crate::bluestation::sec_swmi::all_white_space(neighbours[i]@);
            assert(crate::bluestation::sec_swmi::all_white_space(neighbours[i]@));
        }
    }
}

// ---------------------------------------------------------------------------
// Changes of cells
// ---------------------------------------------------------------------------

/// The station that is found for a cell identifier is that of the first neighbour
/// with the identifier; where none is found no neighbour has it.
pub proof fn law_station_has_the_identifier(neighbours: Seq<NeighbourView>, identifier: u8)
    ensures
        match crate::mle::broadcast::station_of(neighbours, identifier) {
            Some(station) => exists|i: int|
                {
                    &&& 0 <= i < neighbours.len()
                    &&& (#[trigger] neighbours[i]).cell_identifier_ca == identifier
                    &&& neighbours[i].station_id == station
                    &&& forall|j: int|
                        0 <= j < i ==> (#[trigger] neighbours[j]).cell_identifier_ca != identifier
                },
            None => forall|i: int|
                0 <= i < neighbours.len() ==> (#[trigger] neighbours[i]).cell_identifier_ca
                    != identifier,
        },
    decreases neighbours.len(),
{
    if neighbours.len() > 0 {
        if neighbours[0].cell_identifier_ca != identifier {
            let rest = neighbours.drop_first();
            law_station_has_the_identifier(rest, identifier);
            assert forall|i: int| 0 < i < neighbours.len() implies #[trigger] neighbours[i]
                == rest[i - 1] by {}
            if let Some(station) = crate::mle::broadcast::station_of(rest, identifier) {
                let i = choose|i: int|
                    {
                        &&& 0 <= i < rest.len()
                        &&& (#[trigger] rest[i]).cell_identifier_ca == identifier
                        &&& rest[i].station_id == station
                        &&& forall|j: int|
                            0 <= j < i ==> (#[trigger] rest[j]).cell_identifier_ca != identifier
                    };
                assert(neighbours[i + 1] == rest[i]);
                assert forall|j: int| 0 <= j < i + 1 implies (
                #[trigger] neighbours[j]).cell_identifier_ca != identifier by {
                    if j > 0 {
                        assert(neighbours[j] == rest[j - 1]);
                    }
                }
            }
        }
    }
}

/// A terminal that prepares to go to a neighbour, and hands in a location update
/// of service restoration for it, is registered there: mobility management gets
/// the update, whole, with the terminal's address and the station of the cell
/// that it named; the terminal waits for five seconds.
pub proof fn law_forward_registration_reaches_the_named_cell(
    run: MleRun,
    address: TetraAddress,
    identifier: u8,
    sdu: BitsView,
)
    requires
        crate::mle::broadcast::station_of(run.carousel.neighbours, identifier) is Some,
        sdu.pos == 0,
        sdu.bits.len() >= 4,
        // The type of U-LOCATION UPDATE DEMAND is 2.
        sdu.bits.take(4) == seq![false, false, true, false],
    ensures
        ({
            let after = run.prepare(
                address,
                Some(
                    PrepareView {
                        cell_identifier_ca: Some(identifier),
                        sdu: Some(
                            (
                                sdu,
                                Some(
                                    LocationUpdateType::ServiceRestorationRoamingLocationUpdating,
                                ),
                            ),
                        ),
                    },
                ),
            );
            &&& after.queue == run.queue.push(
                MleMessageView::ToMm {
                    sdu,
                    address,
                    target: crate::mle::broadcast::station_of(run.carousel.neighbours, identifier),
                },
            )
            &&& crate::table::lookup(after.preparing, address.ssi) == Some(run.now.plus(360))
            &&& forall|other: u32|
                other != address.ssi ==> crate::table::lookup(after.preparing, other)
                    == #[trigger] crate::table::lookup(run.preparing, other)
        }),
{
    lemma_type_two(sdu.bits.take(4));
    assert(sdu.bits.subrange(0, 4) =~= sdu.bits.take(4));
    assert(BitsView { bits: sdu.bits, pos: 0 } == sdu);
    let deadline = run.now.plus(360);
    crate::table::law_lookup_after_put(run.preparing, address.ssi, deadline, address.ssi);
    assert forall|other: u32| other != address.ssi implies crate::table::lookup(
        crate::table::put(run.preparing, address.ssi, deadline),
        other,
    ) == #[trigger] crate::table::lookup(run.preparing, other) by {
        crate::table::law_lookup_after_put(run.preparing, address.ssi, deadline, other);
    }
}

proof fn lemma_type_two(bits: Seq<bool>)
    requires
        bits == seq![false, false, true, false],
    ensures
        crate::bitbuffer::number(bits) == 2,
{
    let b3 = bits.drop_last();
    let b2 = b3.drop_last();
    let b1 = b2.drop_last();
    let b0 = b1.drop_last();
    assert(b0.len() == 0);
    assert(crate::bitbuffer::number(b0) == 0);
    assert(crate::bitbuffer::number(b1) == 0);
    assert(crate::bitbuffer::number(b2) == 0);
    assert(crate::bitbuffer::number(b3) == 1);
}

/// U-PREPARE is always answered at once or handed on, in one message that is the
/// terminal's own. It fails where it cannot be read and where it names a cell
/// that is no neighbour; without a cell, or without a PDU for it, the terminal is
/// free to go; and only one that is handed on waits.
pub proof fn law_preparation_is_answered_to_the_terminal(
    run: MleRun,
    address: TetraAddress,
    pdu: Option<PrepareView>,
)
    ensures
        ({
            let after = run.prepare(address, pdu);
            let unknown = pdu is Some && pdu->0.cell_identifier_ca is Some
                && crate::mle::broadcast::station_of(
                run.carousel.neighbours,
                pdu->0.cell_identifier_ca->0,
            ) is None;
            let free = pdu is Some && !unknown && (pdu->0.cell_identifier_ca is None || pdu->0.sdu
                is None);
            &&& after.queue.len() == run.queue.len() + 1
            &&& after.queue.drop_last() == run.queue
            &&& match after.queue.last() {
                MleMessageView::ToMm { address: of, target, .. } => of == address && target is Some
                    && pdu is Some && !unknown && !free,
                MleMessageView::Downlink { address: to, pdu: answer, chan_alloc } => {
                    &&& to == address && chan_alloc is None && after.preparing == run.preparing
                    &&& free ==> answer == MlePduView::DNewCell {
                        channel_command_valid: 1,
                        sdu: None,
                    }
                    &&& !free ==> answer == MlePduView::DPrepareFail { fail_cause: 1, sdu: None }
                },
                _ => false,
            }
            &&& pdu is None || unknown || free ==> after.queue.last() is Downlink
            &&& after == (MleRun { preparing: after.preparing, queue: after.queue, ..run })
        }),
{
    let after = run.prepare(address, pdu);
    assert(after.queue.drop_last() =~= run.queue);
}

/// What mobility management sends to a terminal that prepares a change of cells
/// goes to that terminal unchanged, inside D-NEW CELL if it is an acceptance and
/// inside D-PREPARE FAIL if it is a rejection. The channel that is told is the
/// reserved one, valid at once; without one the terminal is told none.
pub proof fn law_answer_to_a_preparation(
    run: MleRun,
    address: TetraAddress,
    sdu: BitsView,
    seamless: Option<SeamlessHandover>,
    receipt: Option<u64>,
)
    requires
        crate::table::contains(run.preparing, address.ssi),
    ensures
        ({
            let after = run.from_mm(address, sdu, seamless, receipt);
            let accepted = crate::mle::mle_bs::pdu_type(sdu) == Some(5nat);
            let rejected = crate::mle::mle_bs::pdu_type(sdu) == Some(7nat);
            &&& after.queue.len() == run.queue.len() + 1
            &&& after.queue.drop_last() == run.queue
            &&& accepted ==> (after.queue.last() matches MleMessageView::Downlink {
                address: to,
                pdu: MlePduView::DNewCell { channel_command_valid, sdu: inside },
                chan_alloc,
            } && {
                &&& to == address
                &&& inside == Some(sdu.bits)
                &&& seamless is None ==> chan_alloc is None && channel_command_valid == 1
                &&& seamless is Some ==> channel_command_valid == 0 && (chan_alloc matches Some(
                    channel,
                ) && {
                    &&& channel.usage == Some(seamless->0.usage)
                    &&& channel.carrier == Some(seamless->0.carrier)
                    &&& channel.timeslots == (
                        seamless->0.ts1,
                        seamless->0.ts2,
                        seamless->0.ts3,
                        seamless->0.ts4,
                    )
                    &&& channel.cell_change_flag
                })
            })
            &&& rejected ==> after.queue.last() == (MleMessageView::Downlink {
                address,
                pdu: MlePduView::DPrepareFail { fail_cause: 1, sdu: Some(sdu.bits) },
                chan_alloc: None,
            })
            &&& accepted || rejected ==> !crate::table::contains(after.preparing, address.ssi)
            &&& !accepted && !rejected ==> after.preparing == run.preparing && after.queue.last()
                is Link
            &&& forall|other: u32|
                other != address.ssi ==> crate::table::lookup(after.preparing, other)
                    == #[trigger] crate::table::lookup(run.preparing, other)
        }),
{
    let after = run.from_mm(address, sdu, seamless, receipt);
    assert(after.queue.drop_last() =~= run.queue);
    crate::table::law_lookup_after_del(run.preparing, address.ssi, address.ssi);
    assert forall|other: u32| other != address.ssi implies crate::table::lookup(
        after.preparing,
        other,
    ) == #[trigger] crate::table::lookup(run.preparing, other) by {
        crate::table::law_lookup_after_del(run.preparing, address.ssi, other);
    }
}

/// A terminal that restores a call is answered through circuit mode control: what
/// it handed in goes there whole, and the answer goes to that terminal unchanged,
/// with the channel that circuit mode control gave. An empty answer is a failure,
/// and a request that cannot be read fails at once. Either way the restoration is
/// over.
pub proof fn law_restoration_is_answered(
    run: MleRun,
    head: UplinkHead,
    sdu: Option<BitsView>,
    answer: LinkHead,
    reply: BitsView,
)
    requires
        answer.main_address.ssi == head.address.ssi,
    ensures
        ({
            let asked = run.restore(head, sdu);
            let answered = asked.from_cmce(answer, reply);
            &&& sdu is None ==> asked == (MleRun {
                queue: run.queue.push(
                    MleMessageView::Downlink {
                        address: head.address,
                        pdu: MlePduView::DRestoreFail { fail_cause: 1 },
                        chan_alloc: None,
                    },
                ),
                ..run
            })
            &&& sdu is Some ==> {
                &&& asked.queue == run.queue.push(
                    MleMessageView::ToCmce { sdu: BitsView { bits: sdu->0.bits, pos: 0 }, head },
                )
                &&& answered.queue == asked.queue.push(
                    MleMessageView::Downlink {
                        address: answer.main_address,
                        pdu: if reply.bits.len() == 0 {
                            MlePduView::DRestoreFail { fail_cause: 1 }
                        } else {
                            MlePduView::DRestoreAck { sdu: reply.bits }
                        },
                        chan_alloc: if reply.bits.len() == 0 {
                            None
                        } else {
                            answer.chan_alloc
                        },
                    },
                )
                &&& !crate::table::contains(answered.restoring, head.address.ssi)
            }
        }),
{
    crate::table::law_lookup_after_put(run.restoring, head.address.ssi, true, head.address.ssi);
    let asked = run.restore(head, sdu);
    crate::table::law_lookup_after_del(asked.restoring, head.address.ssi, head.address.ssi);
    let answered = asked.from_cmce(answer, reply);
    if sdu is Some {
        assert(answered.queue.drop_last() =~= asked.queue);
    }
}

// ---------------------------------------------------------------------------
// Passing PDUs on
// ---------------------------------------------------------------------------

/// What an entity of a terminal sends reaches the same entity of the station: a
/// PDU behind the code of its entity is handed to that entity and no other, with
/// the bits that stood behind the code and where it came from. What is for no
/// entity of the station goes nowhere.
pub proof fn law_uplink_reaches_its_entity(
    run: MleRun,
    head: UplinkHead,
    entity: MleProtocolDiscriminator,
    sdu: Seq<bool>,
)
    ensures
        ({
            let bits = crate::mle::mle_bs::framed(entity, sdu);
            let after = run.uplink(head, BitsView { bits, pos: 0 });
            let inner = BitsView { bits, pos: 3 };
            &&& inner.bits.skip(inner.pos) == sdu
            &&& entity == MleProtocolDiscriminator::Mm ==> after.queue == run.queue.push(
                MleMessageView::ToMm { sdu: inner, address: head.address, target: None },
            )
            &&& entity == MleProtocolDiscriminator::Cmce ==> after.queue == run.queue.push(
                MleMessageView::ToCmce { sdu: inner, head },
            )
            &&& entity == MleProtocolDiscriminator::Sndcp ==> after.queue == run.queue.push(
                MleMessageView::ToSndcp { sdu: inner, head },
            )
            &&& entity == MleProtocolDiscriminator::Mle ==> after.queue == run.queue.push(
                MleMessageView::ToMle { sdu: inner, head },
            )
            &&& entity == MleProtocolDiscriminator::TetraManagementEntity ==> after == run
            &&& after == (MleRun { queue: after.queue, ..run })
        }),
{
    crate::mle::mle_bs::law_frame_is_read_back(entity, sdu);
    let bits = crate::mle::mle_bs::framed(entity, sdu);
    crate::bitbuffer::lemma_digits_len(entity.into_raw() as nat, 3);
    assert(bits.len() == sdu.len() + 3);
    assert(bits.subrange(0, 3) =~= bits.take(3));
}

/// An ordinary PDU of mobility management goes to its terminal, acknowledged, and
/// the sender is told what becomes of it under the number it gave; one of circuit
/// mode control goes just as circuit mode control asked. Both go behind the code
/// of their entity.
pub proof fn law_downlink_goes_to_its_terminal(
    run: MleRun,
    address: TetraAddress,
    sdu: BitsView,
    seamless: Option<SeamlessHandover>,
    receipt: Option<u64>,
    head: LinkHead,
)
    ensures
        !crate::table::contains(run.preparing, address.ssi) ==> {
            let after = run.from_mm(address, sdu, seamless, receipt);
            &&& after.queue.len() == run.queue.len() + 1
            &&& after.queue.drop_last() == run.queue
            &&& after.queue.last() matches MleMessageView::Link { head: sent, sdu: bits } && {
                &&& sent.main_address == address
                &&& sent.receipt == receipt
                &&& sent.layer2service == Layer2Service::Acknowledged
                &&& !sent.stealing_permission
                &&& sent.chan_alloc is None && sent.associated_channel is None
                &&& bits == seq![false, false, true] + sdu.bits
            }
            &&& after == (MleRun { queue: after.queue, ..run })
        },
        !crate::table::contains(run.restoring, head.main_address.ssi) ==> run.from_cmce(head, sdu)
            == (MleRun {
            queue: run.queue.push(
                MleMessageView::Link { head, sdu: seq![false, true, false] + sdu.bits },
            ),
            ..run
        }),
{
    let after = run.from_mm(address, sdu, seamless, receipt);
    assert(after.queue.drop_last() =~= run.queue);
    reveal_with_fuel(crate::bitbuffer::digits, 4);
    assert(crate::bitbuffer::digits(1, 3) =~= seq![false, false, true]);
    assert(crate::bitbuffer::digits(2, 3) =~= seq![false, true, false]);
}

/// Time that runs out fails the change of cells of exactly those terminals whose
/// deadline it was; the others go on waiting.
pub proof fn law_others_go_on_waiting(run: MleRun, ts: TdmaTime, i: int)
    requires
        0 <= i < run.preparing.len(),
        ts.since(run.preparing[i].1) < 0,
    ensures
        run.clocked(ts).preparing.contains(run.preparing[i]),
        run.clocked(ts).now == ts,
{
    lemma_still_waiting_keeps(run.preparing, ts, i);
}

proof fn lemma_still_waiting_keeps(entries: Seq<(u32, TdmaTime)>, now: TdmaTime, i: int)
    requires
        0 <= i < entries.len(),
        now.since(entries[i].1) < 0,
    ensures
        crate::mle::mle_bs::still_waiting(entries, now).contains(entries[i]),
    decreases entries.len(),
{
    let rest = entries.drop_last();
    let all = crate::mle::mle_bs::still_waiting(entries, now);
    if i < rest.len() {
        lemma_still_waiting_keeps(rest, now, i);
        let kept = crate::mle::mle_bs::still_waiting(rest, now);
        assert(rest[i] == entries[i]);
        let k = choose|k: int| 0 <= k < kept.len() && kept[k] == entries[i];
        assert(all[k] == entries[i]);
    } else {
        assert(all[all.len() - 1] == entries[i]);
    }
}

/// New settings are taken in their order, and each is answered under its own
/// handle.
pub proof fn law_each_update_is_answered(
    run: MleRun,
    updates: Seq<crate::mle::mle_bs::SettingsUpdate>,
    last: crate::mle::mle_bs::SettingsUpdate,
)
    ensures
        ({
            let before = run.all_settings(updates);
            let after = run.all_settings(updates.push(last));
            &&& after.queue.len() == run.queue.len() + updates.len() + 1
            &&& after.queue.drop_last() == before.queue
            &&& after.queue.last() matches MleMessageView::SettingsAnswer {
                handle,
                version,
                error,
            } && {
                &&& handle == last.handle
                &&& version == after.advertised.version
                &&& error is None ==> after.advertised.neighbours == last.neighbour_ids@
                    && after.advertised.broadcast == last.broadcast
                &&& error is Some ==> after.advertised == before.advertised
            }
        }),
{
    assert(updates.push(last).drop_last() =~= updates);
    lemma_answers(run, updates);
    law_settings_are_taken_or_refused(
        run.all_settings(updates),
        last.handle,
        last.neighbour_ids@,
        last.broadcast,
    );
}

proof fn lemma_answers(run: MleRun, updates: Seq<crate::mle::mle_bs::SettingsUpdate>)
    ensures
        run.all_settings(updates).queue.len() == run.queue.len() + updates.len(),
    decreases updates.len(),
{
    if updates.len() > 0 {
        lemma_answers(run, updates.drop_last());
    }
}

} // verus!
