//! What short data and status are for, stated of what comes in and what is handed
//! on.
use crate::bluestation::subscribers::RegistryView;
use crate::cmce::sds_bs::{
    DeliveryKey, FinishedDelivery, SdsDataView, SdsMessageView, SdsRun, SdsSwmiMessage, UStatus,
    USdsData,
};
use vstd::prelude::*;

verus! {

/// The identity from which the network speaks.
pub open spec fn network() -> u32 {
    16777213
}

/// Whether a PDU is addressed by a short identity and nothing else.
pub open spec fn data_is_served(pdu: USdsData) -> bool {
    pdu.called_party_ssi is Some && !pdu.has_called_party_extension
        && !pdu.has_external_subscriber_number && !pdu.has_dm_ms_address
}

/// Whether a PDU is addressed by a short identity and nothing else.
pub open spec fn status_is_served(pdu: UStatus) -> bool {
    pdu.called_party_ssi is Some && !pdu.has_called_party_extension
        && !pdu.has_external_subscriber_number && !pdu.has_dm_ms_address
}

/// Whether terminals are attached to the identity, which is no terminal's.
pub open spec fn is_group(registry: RegistryView, ssi: u32) -> bool {
    !registry.registered(ssi) && exists|issi: u32| #[trigger] registry.affiliated(issi, ssi)
}

/// Whether some bytes are those of the data: a number with the most significant
/// byte first, and a string as it is.
pub open spec fn carries(data: SdsDataView, data_type: u8, bits: u16, bytes: Seq<u8>) -> bool {
    match data {
        SdsDataView::Type1(value) => data_type == 0 && bits == 16 && bytes.len() == 2 && value
            == bytes[0] * 256 + bytes[1],
        SdsDataView::Type2(value) => data_type == 1 && bits == 32 && bytes.len() == 4 && value
            == bytes[0] * 16777216 + bytes[1] * 65536 + bytes[2] * 256 + bytes[3],
        SdsDataView::Type3(value) => data_type == 2 && bits == 64 && bytes.len() == 8 && value
            == bytes[0] * 72057594037927936 + bytes[1] * 281474976710656 + bytes[2] * 1099511627776
            + bytes[3] * 4294967296 + bytes[4] * 16777216 + bytes[5] * 65536 + bytes[6] * 256
            + bytes[7],
        SdsDataView::Type4(len, string) => data_type == 3 && bits == len && bytes == string,
    }
}

proof fn lemma_carries(data: SdsDataView)
    ensures
        carries(data, data.wire_type(), data.length_bits(), data.bytes()),
{
    reveal_with_fuel(crate::cmce::sds_bs::big_endian, 9);
    match data {
        SdsDataView::Type1(value) => {
            assert(value as nat == value as nat / 256 % 256 * 256 + value as nat % 256);
        },
        SdsDataView::Type2(value) => {
            let v = value as nat;
            let (a, b, c) = (v / 256, v / 256 / 256, v / 256 / 256 / 256);
            assert(v == a * 256 + v % 256 && a == b * 256 + a % 256 && b == c * 256 + b % 256);
            assert(c % 256 == c);
        },
        SdsDataView::Type3(value) => {
            let v0 = value as nat;
            let v1 = v0 / 256;
            let v2 = v1 / 256;
            let v3 = v2 / 256;
            let v4 = v3 / 256;
            let v5 = v4 / 256;
            let v6 = v5 / 256;
            let v7 = v6 / 256;
            assert(v0 == v1 * 256 + v0 % 256 && v1 == v2 * 256 + v1 % 256);
            assert(v2 == v3 * 256 + v2 % 256 && v3 == v4 * 256 + v3 % 256);
            assert(v4 == v5 * 256 + v4 % 256 && v5 == v6 * 256 + v5 % 256);
            assert(v6 == v7 * 256 + v6 % 256 && v7 % 256 == v7);
            let bytes = data.bytes();
            assert(bytes.len() == 8);
            assert(bytes[0] == v7 && bytes[1] == v6 % 256 && bytes[2] == v5 % 256);
            assert(bytes[3] == v4 % 256 && bytes[4] == v3 % 256 && bytes[5] == v2 % 256);
            assert(bytes[6] == v1 % 256 && bytes[7] == v0 % 256);
        },
        SdsDataView::Type4(_, _) => {},
    }
}

/// While the SwMI is connected and takes messages, what it gets for short data of
/// a terminal names that terminal as its source and the called party as its
/// destination, and carries the data whole. Nothing else is handed on, and
/// nothing is awaited.
pub proof fn law_data_is_submitted_as_it_was_sent(
    run: SdsRun,
    registry: RegistryView,
    source: u32,
    pdu: USdsData,
)
    requires
        run.link.present && run.link.online && run.link.accepting,
        data_is_served(pdu),
    ensures
        ({
            let after = run.data_received(registry, source, pdu);
            &&& after.queue.len() == run.queue.len() + 1
            &&& after.queue.drop_last() == run.queue
            &&& after.queue.last() matches SdsMessageView::Submit {
                command_id,
                source_issi,
                destination_ssi,
                destination_is_group,
                data_type,
                length_bits,
                data,
            } && {
                &&& source_issi == source
                &&& destination_ssi == pdu.called_party_ssi->0
                &&& destination_is_group <==> is_group(registry, pdu.called_party_ssi->0)
                &&& carries(pdu.user_defined_data@, data_type, length_bits, data)
                &&& command_id == run.next_command_id
            }
            &&& after.pending == run.pending
            &&& after.next_command_id != run.next_command_id && after.next_command_id != 0
        }),
{
    let after = run.data_received(registry, source, pdu);
    assert(after.queue.drop_last() =~= run.queue);
    lemma_carries(pdu.user_defined_data@);
    crate::bluestation::subscribers::law_members_are_the_affiliated(
        registry,
        pdu.called_party_ssi->0,
    );
}

/// Short data and status that the connected SwMI does not take come back to their
/// sender as a negative acknowledgement of the network; PDUs that are not
/// addressed by a short identity alone come to nothing.
pub proof fn law_refused_submission_comes_back(
    run: SdsRun,
    registry: RegistryView,
    source: u32,
    pdu: USdsData,
    status: UStatus,
)
    ensures
        run.link.present && run.link.online && !run.link.accepting && data_is_served(pdu) ==> {
            let after = run.data_received(registry, source, pdu);
            after.pending == run.pending && after.queue == run.queue.push(
                SdsMessageView::Status {
                    source_issi: network(),
                    destination_ssi: source,
                    to_group: false,
                    status: 0xfe01,
                },
            )
        },
        run.link.present && run.link.online && !run.link.accepting && status_is_served(status)
            ==> {
            let after = run.status_received(registry, source, status);
            after.pending == run.pending && after.queue == run.queue.push(
                SdsMessageView::Status {
                    source_issi: network(),
                    destination_ssi: source,
                    to_group: false,
                    status: 0xfe01,
                },
            )
        },
        !data_is_served(pdu) ==> run.data_received(registry, source, pdu) == run,
        !status_is_served(status) ==> run.status_received(registry, source, status) == run,
{
}

/// Without the SwMI short data for a terminal of the cell goes to that terminal,
/// unchanged and under the name of its sender, and what becomes of it is awaited
/// for the sender. Short data for a group of the cell goes to the group, and
/// nothing is awaited. Where nobody is here to receive it the sender is told that
/// the destination cannot be reached.
pub proof fn law_station_alone_delivers(
    run: SdsRun,
    registry: RegistryView,
    source: u32,
    pdu: USdsData,
)
    requires
        !(run.link.present && run.link.online),
        data_is_served(pdu),
        pdu.user_defined_data@ matches SdsDataView::Type4(len, bytes) ==> len <= bytes.len() * 8,
    ensures
        ({
            let after = run.data_received(registry, source, pdu);
            let called = pdu.called_party_ssi->0;
            let key = DeliveryKey { central: false, id: run.next_local_id };
            &&& after.queue.len() == run.queue.len() + 1
            &&& after.queue.drop_last() == run.queue
            &&& registry.registered(called) ==> {
                &&& after.queue.last() == (SdsMessageView::Data {
                    source_issi: source,
                    destination_ssi: called,
                    to_group: false,
                    data: pdu.user_defined_data@,
                    report: Some(key),
                })
                &&& crate::table::lookup(after.pending, key) matches Some(awaited) && {
                    &&& awaited.originator_issi == source
                    &&& awaited.destination_issi == called
                    &&& awaited.transaction_id is None
                }
                &&& after.next_local_id != run.next_local_id && after.next_local_id != 0
            }
            &&& is_group(registry, called) ==> {
                &&& after.queue.last() == (SdsMessageView::Data {
                    source_issi: source,
                    destination_ssi: called,
                    to_group: true,
                    data: pdu.user_defined_data@,
                    report: None,
                })
                &&& after.pending == run.pending
            }
            &&& !registry.registered(called) && !is_group(registry, called) ==> {
                &&& after.queue.last() == (SdsMessageView::Status {
                    source_issi: network(),
                    destination_ssi: source,
                    to_group: false,
                    status: 0xfe05,
                })
                &&& after.pending == run.pending
            }
        }),
{
    let after = run.data_received(registry, source, pdu);
    let called = pdu.called_party_ssi->0;
    assert(after.queue.drop_last() =~= run.queue);
    crate::bluestation::subscribers::law_members_are_the_affiliated(registry, called);
    let key = DeliveryKey { central: false, id: run.next_local_id };
    let awaited = crate::cmce::sds_bs::PendingSdsDelivery {
        transaction_id: None,
        originator_issi: source,
        destination_issi: called,
        sds_tl_protocol_id: pdu.user_defined_data@.context().0,
        message_reference: pdu.user_defined_data@.context().1,
    };
    crate::table::law_lookup_after_put(run.pending, key, awaited, key);
}

/// Short data that a terminal of the cell sent to another, and that the other did
/// not acknowledge, is told to its sender, and to nobody else: as a report on the
/// very message where the message asked for one, otherwise as a status. One that
/// was acknowledged is told to nobody.
pub proof fn law_failed_local_delivery_is_told_to_the_sender(
    run: SdsRun,
    registry: RegistryView,
    source: u32,
    pdu: USdsData,
    acknowledged: bool,
)
    requires
        !(run.link.present && run.link.online),
        data_is_served(pdu),
        registry.registered(pdu.called_party_ssi->0),
        pdu.user_defined_data@ matches SdsDataView::Type4(len, bytes) ==> len <= bytes.len() * 8,
    ensures
        ({
            let sent = run.data_received(registry, source, pdu);
            let key = DeliveryKey { central: false, id: run.next_local_id };
            let done = sent.all_finished(seq![FinishedDelivery { key, acknowledged }]);
            let wants_report = pdu.user_defined_data@ matches SdsDataView::Type4(_, bytes)
                && bytes.len() >= 3 && bytes[0] >= 128;
            &&& acknowledged ==> done.queue == sent.queue
            &&& !acknowledged && wants_report ==> done.queue == sent.queue.push(
                SdsMessageView::Data {
                    source_issi: network(),
                    destination_ssi: source,
                    to_group: false,
                    data: SdsDataView::Type4(
                        32,
                        seq![
                            pdu.user_defined_data@->Type4_1[0],
                            16u8,
                            50u8,
                            pdu.user_defined_data@->Type4_1[2],
                        ],
                    ),
                    report: None,
                },
            )
            &&& !acknowledged && !wants_report ==> done.queue == sent.queue.push(
                SdsMessageView::Status {
                    source_issi: network(),
                    destination_ssi: source,
                    to_group: false,
                    status: 0xfe01,
                },
            )
            &&& !crate::table::contains(done.pending, key)
        }),
{
    law_station_alone_delivers(run, registry, source, pdu);
    let sent = run.data_received(registry, source, pdu);
    let key = DeliveryKey { central: false, id: run.next_local_id };
    let one = seq![FinishedDelivery { key, acknowledged }];
    assert(one.drop_last() =~= Seq::empty());
    assert(sent.all_finished(one.drop_last()) == sent);
    crate::table::law_lookup_after_del(sent.pending, key, key);
    let awaited = crate::cmce::sds_bs::PendingSdsDelivery {
        transaction_id: None,
        originator_issi: source,
        destination_issi: pdu.called_party_ssi->0,
        sds_tl_protocol_id: pdu.user_defined_data@.context().0,
        message_reference: pdu.user_defined_data@.context().1,
    };
    crate::table::law_lookup_after_put(run.pending, key, awaited, key);
}

/// A status of a terminal goes where it was sent, under the name of its sender
/// and with its value: to the SwMI while it is connected and takes messages, to
/// the called terminal where the station is alone and the terminal is here.
/// Otherwise the sender is told that the destination cannot be reached.
pub proof fn law_status_goes_where_it_was_sent(
    run: SdsRun,
    registry: RegistryView,
    source: u32,
    pdu: UStatus,
)
    requires
        status_is_served(pdu),
    ensures
        ({
            let after = run.status_received(registry, source, pdu);
            let called = pdu.called_party_ssi->0;
            let online = run.link.present && run.link.online;
            &&& online && run.link.accepting ==> after.queue == run.queue.push(
                SdsMessageView::StatusSubmit {
                    command_id: run.next_command_id,
                    source_issi: source as u64,
                    destination_ssi: called,
                    status: pdu.pre_coded_status,
                },
            ) && after.next_command_id != run.next_command_id
            &&& !online && registry.registered(called) ==> after.queue == run.queue.push(
                SdsMessageView::Status {
                    source_issi: source,
                    destination_ssi: called,
                    to_group: false,
                    status: pdu.pre_coded_status,
                },
            )
            &&& !online && !registry.registered(called) ==> after.queue == run.queue.push(
                SdsMessageView::Status {
                    source_issi: network(),
                    destination_ssi: source,
                    to_group: false,
                    status: 0xfe05,
                },
            )
            &&& after.pending == run.pending
        }),
{
}

/// Short data that the SwMI has for a terminal or a group of the cell is sent to
/// it, whole and under the name of its source. What the SwMI wants to know of is
/// awaited under its transaction, and its end is reported under the transaction:
/// as delivered exactly if the terminal acknowledged it. A destination that is
/// not here is reported at once, as is data that cannot be read.
pub proof fn law_central_delivery_is_carried_out_and_reported(
    run: SdsRun,
    registry: RegistryView,
    transaction: u64,
    source: u32,
    called: u32,
    group: bool,
    data: Option<SdsDataView>,
    acknowledged: bool,
)
    requires
        run.link.present && run.link.accepting,
        transaction != 0,
        data matches Some(SdsDataView::Type4(len, bytes)) ==> len <= bytes.len() * 8,
    ensures
        ({
            let after = run.central_data(registry, transaction, source, called, group, data);
            let here = if group {
                exists|issi: u32| #[trigger] registry.affiliated(issi, called)
            } else {
                registry.registered(called)
            };
            let key = DeliveryKey { central: true, id: transaction };
            let done = after.all_finished(seq![FinishedDelivery { key, acknowledged }]);
            &&& after.queue.len() == run.queue.len() + 1
            &&& after.queue.drop_last() == run.queue
            &&& data is Some && here ==> after.queue.last() == (SdsMessageView::Data {
                source_issi: source,
                destination_ssi: called,
                to_group: group,
                data: data->0,
                report: if group {
                    None
                } else {
                    Some(key)
                },
            })
            &&& data is None || !here ==> {
                &&& after.queue.last() == (SdsMessageView::DeliveryResult {
                    transaction_id: transaction,
                    destination_issi: called as u64,
                    delivered: false,
                    cause: if data is None {
                        50
                    } else {
                        61
                    },
                })
                &&& after.pending == run.pending
            }
            &&& data is Some && here && !group ==> {
                &&& done.queue == after.queue.push(
                    SdsMessageView::DeliveryResult {
                        transaction_id: transaction,
                        destination_issi: called as u64,
                        delivered: acknowledged,
                        cause: if acknowledged {
                            0
                        } else {
                            50
                        },
                    },
                )
                &&& !crate::table::contains(done.pending, key)
            }
        }),
{
    let after = run.central_data(registry, transaction, source, called, group, data);
    assert(after.queue.drop_last() =~= run.queue);
    crate::bluestation::subscribers::law_members_are_the_affiliated(registry, called);
    let key = DeliveryKey { central: true, id: transaction };
    let awaited = crate::cmce::sds_bs::PendingSdsDelivery {
        transaction_id: Some(transaction),
        originator_issi: source,
        destination_issi: called,
        sds_tl_protocol_id: None,
        message_reference: None,
    };
    crate::table::law_lookup_after_put(run.pending, key, awaited, key);
    let one = seq![FinishedDelivery { key, acknowledged }];
    assert(one.drop_last() =~= Seq::empty());
    assert(after.all_finished(one.drop_last()) == after);
    crate::table::law_lookup_after_del(after.pending, key, key);
}

/// What the SwMI hands over is read from its message: data arrives as what it was
/// packed from, and failure and status reach the terminals that they name.
pub proof fn law_messages_of_the_swmi_are_read(
    run: SdsRun,
    registry: RegistryView,
    message: SdsSwmiMessage,
)
    ensures
        match message {
            SdsSwmiMessage::Deliver {
                transaction_id,
                source_issi,
                destination_ssi,
                destination_is_group,
                data_type,
                length_bits,
                data,
            } => forall|packed: SdsDataView|
                data_type == packed.wire_type() && length_bits == packed.length_bits() && data@
                    == packed.bytes() && (packed matches SdsDataView::Type4(len, bytes)
                    ==> bytes.len() == (len + 7) / 8) ==> run.swmi_action(registry, message)
                    == #[trigger] run.central_data(
                    registry,
                    transaction_id,
                    source_issi as u32,
                    destination_ssi,
                    destination_is_group,
                    Some(packed),
                ),
            SdsSwmiMessage::Failure {
                originator_issi,
                destination_ssi,
                cause,
                sds_tl_protocol_id,
                message_reference,
            } => {
                let after = run.swmi_action(registry, message);
                &&& after.queue.len() == run.queue.len() + 1
                &&& after.queue.drop_last() == run.queue
                &&& after.pending == run.pending
                &&& match after.queue.last() {
                    SdsMessageView::Status {
                        source_issi: from,
                        destination_ssi: to,
                        to_group,
                        status,
                    } => {
                        &&& from == network() && to == originator_issi as u32 && !to_group
                        &&& sds_tl_protocol_id is None || message_reference is None
                        &&& cause == 43 ==> status == 0xfe02
                        &&& cause == 44 ==> status == 0xfe06
                        &&& cause == 45 ==> status == 0xfe04
                        &&& cause == 51 || cause == 61 ==> status == 0xfe05
                        &&& ![43u8, 44, 45, 51, 61]@.contains(cause) ==> status == 0xfe01
                    },
                    SdsMessageView::Data {
                        source_issi: from,
                        destination_ssi: to,
                        to_group,
                        data,
                        report,
                    } => {
                        &&& from == network() && to == originator_issi as u32 && !to_group
                        &&& report is None
                        &&& sds_tl_protocol_id is Some && message_reference is Some
                        &&& data == SdsDataView::Type4(
                            32,
                            seq![sds_tl_protocol_id->0, 16u8, cause, message_reference->0],
                        )
                    },
                    _ => false,
                }
            },
            SdsSwmiMessage::StatusDeliver { source_issi, destination_ssi, status } => run.swmi_action(
                registry,
                message,
            ) == (SdsRun {
                queue: run.queue.push(
                    SdsMessageView::Status {
                        source_issi: source_issi as u32,
                        destination_ssi,
                        to_group: !registry.registered(destination_ssi),
                        status,
                    },
                ),
                ..run
            }),
        },
{
    let after = run.swmi_action(registry, message);
    match message {
        SdsSwmiMessage::Deliver {
            transaction_id,
            source_issi,
            destination_ssi,
            destination_is_group,
            data_type,
            length_bits,
            data,
        } => {
            assert forall|packed: SdsDataView|
                data_type == packed.wire_type() && length_bits == packed.length_bits() && data@
                    == packed.bytes() && (packed matches SdsDataView::Type4(len, bytes)
                    ==> bytes.len() == (len + 7) / 8) implies run.swmi_action(registry, message)
                == #[trigger] run.central_data(
                registry,
                transaction_id,
                source_issi as u32,
                destination_ssi,
                destination_is_group,
                Some(packed),
            ) by {
                crate::cmce::sds_bs::law_data_is_read_back(packed);
            }
        },
        SdsSwmiMessage::Failure { cause, .. } => {
            assert(after.queue.drop_last() =~= run.queue);
            let told = [43u8, 44, 45, 51, 61]@;
            if cause == 43 {
                assert(told[0] == cause);
            }
            if cause == 44 {
                assert(told[1] == cause);
            }
            if cause == 45 {
                assert(told[2] == cause);
            }
            if cause == 51 {
                assert(told[3] == cause);
            }
            if cause == 61 {
                assert(told[4] == cause);
            }
        },
        SdsSwmiMessage::StatusDeliver { .. } => {},
    }
}

/// Short data from Brew and from the control interface keeps its source, its
/// destination and its content, wherever it goes: to the SwMI while it is
/// connected and takes messages, otherwise to those here. The control interface
/// is told whether it was taken.
pub proof fn law_other_sources_keep_their_data(
    run: SdsRun,
    registry: RegistryView,
    source: u32,
    called: u32,
    group: bool,
    data: SdsDataView,
    bits: u16,
    payload: Seq<u8>,
)
    requires
        data matches SdsDataView::Type4(len, bytes) ==> len <= bytes.len() * 8,
        bits <= payload.len() * 8,
    ensures
        ({
            let online = run.link.present && run.link.online;
            let brew = run.brew_data(registry, source, called, data);
            let (control, taken) = run.control_data(registry, source, called, group, bits, payload);
            let here = if group {
                exists|issi: u32| #[trigger] registry.affiliated(issi, called)
            } else {
                registry.registered(called)
            };
            &&& online && run.link.accepting ==> {
                &&& brew.queue.drop_last() == run.queue && control.queue.drop_last() == run.queue
                &&& brew.queue.last() matches SdsMessageView::Submit {
                    source_issi,
                    destination_ssi,
                    data_type,
                    length_bits,
                    data: bytes,
                    ..
                } && source_issi == source && destination_ssi == called && carries(
                    data,
                    data_type,
                    length_bits,
                    bytes,
                )
                &&& control.queue.last() matches SdsMessageView::Submit {
                    source_issi,
                    destination_ssi,
                    destination_is_group,
                    data_type,
                    length_bits,
                    data: bytes,
                    ..
                } && source_issi == source && destination_ssi == called && destination_is_group
                    == group && carries(
                    SdsDataView::Type4(bits, payload),
                    data_type,
                    length_bits,
                    bytes,
                )
                &&& taken
            }
            &&& online && !run.link.accepting ==> !taken && control.queue == run.queue
            &&& !online ==> {
                &&& taken == here
                &&& here ==> control.queue == run.queue.push(
                    SdsMessageView::Data {
                        source_issi: source,
                        destination_ssi: called,
                        to_group: group,
                        data: SdsDataView::Type4(bits, payload),
                        report: None,
                    },
                )
                &&& !here ==> control.queue == run.queue
                &&& registry.registered(called) ==> brew.queue == run.queue.push(
                    SdsMessageView::Data {
                        source_issi: source,
                        destination_ssi: called,
                        to_group: false,
                        data,
                        report: None,
                    },
                )
                &&& !registry.registered(called) ==> brew.queue == run.queue
            }
        }),
{
    let brew = run.brew_data(registry, source, called, data);
    let control = run.control_data(registry, source, called, group, bits, payload).0;
    lemma_carries(data);
    crate::bluestation::subscribers::law_members_are_the_affiliated(registry, called);
    if run.link.present && run.link.online && run.link.accepting {
        assert(brew.queue.drop_last() =~= run.queue);
        assert(control.queue.drop_last() =~= run.queue);
    }
}

/// Short data of the SwMI without a transaction is delivered like any other, but
/// nothing is reported of it: neither that it cannot be delivered nor what became
/// of it.
pub proof fn law_data_without_a_transaction_is_not_reported(
    run: SdsRun,
    registry: RegistryView,
    source: u32,
    called: u32,
    group: bool,
    data: SdsDataView,
)
    requires
        data matches SdsDataView::Type4(len, bytes) ==> len <= bytes.len() * 8,
    ensures
        ({
            let here = if group {
                exists|issi: u32| #[trigger] registry.affiliated(issi, called)
            } else {
                registry.registered(called)
            };
            let after = run.central_data(registry, 0, source, called, group, Some(data));
            &&& run.central_data(registry, 0, source, called, group, None) == run
            &&& !here ==> after == run
            &&& here ==> after.pending == run.pending && after.queue == run.queue.push(
                SdsMessageView::Data {
                    source_issi: source,
                    destination_ssi: called,
                    to_group: group,
                    data,
                    report: None,
                },
            )
        }),
{
    crate::bluestation::subscribers::law_members_are_the_affiliated(registry, called);
}

} // verus!
