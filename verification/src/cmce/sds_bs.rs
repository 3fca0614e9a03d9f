//! Short data and status.
//!
//! While the SwMI is connected it owns every route: the station hands short data
//! on and reports what becomes of a delivery. Otherwise the station delivers
//! locally.
use crate::bluestation::subscribers::SubscriberRegistry;
use crate::net_swmi::worker::SwmiMessageKind;
use crate::swmi::SwmiEndpoint;
use crate::table::{Key, Table};
use vstd::prelude::*;

verus! {

/// The identity from which status and error reports of the network come.
pub const SWMI_ISSI: u32 = 0x00ff_fffd;

/// Status values of the network.
pub const STATUS_GENERAL_NEGATIVE_ACK: u16 = 0xfe01;

pub const STATUS_NOT_AUTHORISED: u16 = 0xfe02;

pub const STATUS_DESTINATION_DOES_NOT_EXIST: u16 = 0xfe04;

pub const STATUS_DESTINATION_NOT_REACHABLE: u16 = 0xfe05;

pub const STATUS_DESTINATION_NOT_AUTHORISED: u16 = 0xfe06;

/// Causes of a failed delivery.
pub const SDS_FAILURE_SOURCE_NOT_AUTHORISED: u8 = 0x2b;

pub const SDS_FAILURE_DESTINATION_NOT_AUTHORISED: u8 = 0x2c;

pub const SDS_FAILURE_UNKNOWN_DESTINATION: u8 = 0x2d;

pub const SDS_FAILURE_DELIVERY_FAILED: u8 = 0x32;

pub const SDS_FAILURE_DESTINATION_NOT_REGISTERED: u8 = 0x33;

pub const SDS_FAILURE_DESTINATION_NOT_REACHABLE: u8 = 0x3d;

/// Short data: sixteen, thirty-two or sixty-four bits, or a string of bits with
/// its length.
#[derive(Debug)]
pub enum SdsUserData {
    Type1(u16),
    Type2(u32),
    Type3(u64),
    Type4(u16, Vec<u8>),
}

/// The model of short data.
pub ghost enum SdsDataView {
    Type1(u16),
    Type2(u32),
    Type3(u64),
    Type4(u16, Seq<u8>),
}

impl View for SdsUserData {
    type V = SdsDataView;

    open spec fn view(&self) -> SdsDataView {
        match self {
            SdsUserData::Type1(value) => SdsDataView::Type1(*value),
            SdsUserData::Type2(value) => SdsDataView::Type2(*value),
            SdsUserData::Type3(value) => SdsDataView::Type3(*value),
            SdsUserData::Type4(len, bytes) => SdsDataView::Type4(*len, bytes@),
        }
    }
}

/// The bytes of a number, the most significant one first.
pub open spec fn big_endian(value: nat, n: nat) -> Seq<u8>
    decreases n,
{
    if n == 0 {
        Seq::empty()
    } else {
        big_endian(value / 256, (n - 1) as nat).push((value % 256) as u8)
    }
}

/// The number of bytes, the most significant one first.
pub open spec fn from_big_endian(bytes: Seq<u8>) -> nat
    decreases bytes.len(),
{
    if bytes.len() == 0 {
        0
    } else {
        from_big_endian(bytes.drop_last()) * 256 + bytes.last() as nat
    }
}

impl SdsDataView {
    /// The type on the wire.
    pub open spec fn wire_type(self) -> u8 {
        match self {
            SdsDataView::Type1(_) => 0,
            SdsDataView::Type2(_) => 1,
            SdsDataView::Type3(_) => 2,
            SdsDataView::Type4(_, _) => 3,
        }
    }

    /// The length in bits.
    pub open spec fn length_bits(self) -> u16 {
        match self {
            SdsDataView::Type1(_) => 16,
            SdsDataView::Type2(_) => 32,
            SdsDataView::Type3(_) => 64,
            SdsDataView::Type4(len, _) => len,
        }
    }

    /// The bytes on the wire.
    pub open spec fn bytes(self) -> Seq<u8> {
        match self {
            SdsDataView::Type1(value) => big_endian(value as nat, 2),
            SdsDataView::Type2(value) => big_endian(value as nat, 4),
            SdsDataView::Type3(value) => big_endian(value as nat, 8),
            SdsDataView::Type4(_, bytes) => bytes,
        }
    }

    /// Whether the bytes hold as many bits as the length says.
    pub open spec fn is_whole(self) -> bool {
        match self {
            SdsDataView::Type4(len, bytes) => len <= bytes.len() * 8,
            _ => true,
        }
    }

    /// The protocol and the reference of a message that wants a report: its
    /// first and its third byte, where the first names such a protocol.
    pub open spec fn context(self) -> (Option<u8>, Option<u8>) {
        match self {
            SdsDataView::Type4(_, bytes) if bytes.len() >= 3 && bytes[0] >= 0x80 => (
                Some(bytes[0]),
                Some(bytes[2]),
            ),
            _ => (None, None),
        }
    }
}

/// The short data on the wire, if it is any.
pub open spec fn data_on_wire(data_type: u8, length_bits: u16, bytes: Seq<u8>) -> Option<
    SdsDataView,
> {
    if data_type == 0 && length_bits == 16 && bytes.len() == 2 {
        Some(SdsDataView::Type1(from_big_endian(bytes) as u16))
    } else if data_type == 1 && length_bits == 32 && bytes.len() == 4 {
        Some(SdsDataView::Type2(from_big_endian(bytes) as u32))
    } else if data_type == 2 && length_bits == 64 && bytes.len() == 8 {
        Some(SdsDataView::Type3(from_big_endian(bytes) as u64))
    } else if data_type == 3 && bytes.len() == (length_bits + 7) / 8 {
        Some(SdsDataView::Type4(length_bits, bytes))
    } else {
        None
    }
}

/// What is handed on is what is read again, of data whose bytes just hold its
/// bits.
pub proof fn law_data_is_read_back(data: SdsDataView)
    requires
        data matches SdsDataView::Type4(len, bytes) ==> bytes.len() == (len + 7) / 8,
    ensures
        data_on_wire(data.wire_type(), data.length_bits(), data.bytes()) == Some(data),
{
    match data {
        SdsDataView::Type1(value) => {
            assert(256int * 256 == 65536);
            reveal_with_fuel(power_of_256, 3);
            lemma_big_endian(value as nat, 2);
        },
        SdsDataView::Type2(value) => {
            reveal_with_fuel(power_of_256, 5);
            lemma_big_endian(value as nat, 4);
        },
        SdsDataView::Type3(value) => {
            reveal_with_fuel(power_of_256, 9);
            lemma_big_endian(value as nat, 8);
        },
        SdsDataView::Type4(_, _) => {},
    }
}

spec fn power_of_256(n: nat) -> nat
    decreases n,
{
    if n == 0 {
        1
    } else {
        256 * power_of_256((n - 1) as nat)
    }
}

proof fn lemma_big_endian(value: nat, n: nat)
    requires
        value < power_of_256(n),
    ensures
        big_endian(value, n).len() == n,
        from_big_endian(big_endian(value, n)) == value,
    decreases n,
{
    if n > 0 {
        lemma_big_endian(value / 256, (n - 1) as nat);
        let rest = big_endian(value / 256, (n - 1) as nat);
        assert(rest.push((value % 256) as u8).drop_last() =~= rest);
    }
}

fn read_big_endian(bytes: &Vec<u8>) -> (value: u64)
    requires
        bytes@.len() <= 8,
    ensures
        value == from_big_endian(bytes@),
{
    let mut value: u64 = 0;
    let mut i: usize = 0;
    proof {
        reveal_with_fuel(power_of_256, 9);
    }
    while i < bytes.len()
        invariant
            i <= bytes@.len() <= 8,
            value == from_big_endian(bytes@.take(i as int)),
            value < power_of_256(i as nat),
        decreases bytes@.len() - i,
    {
        proof {
            assert(bytes@.take(i + 1).drop_last() =~= bytes@.take(i as int));
            assert(bytes@.take(i + 1).last() == bytes@[i as int]);
            lemma_power_bound(i as nat);
        }
        value = value * 256 + bytes[i] as u64;
        i = i + 1;
    }
    assert(bytes@.take(bytes@.len() as int) =~= bytes@);
    value
}

proof fn lemma_power_bound(n: nat)
    requires
        n <= 7,
    ensures
        power_of_256(n) * 256 <= 0x1_0000_0000_0000_0000,
        power_of_256(n + 1) == power_of_256(n) * 256,
{
    reveal_with_fuel(power_of_256, 9);
}

fn write_big_endian(value: u64, n: usize) -> (bytes: Vec<u8>)
    ensures
        bytes@ == big_endian(value as nat, n as nat),
    decreases n,
{
    if n == 0 {
        let bytes: Vec<u8> = Vec::new();
        assert(bytes@ =~= Seq::empty());
        return bytes;
    }
    let mut bytes: Vec<u8> = write_big_endian(value / 256, n - 1);
    bytes.push((value % 256) as u8);
    bytes
}

fn copy_bytes(bytes: &Vec<u8>) -> (copy: Vec<u8>)
    ensures
        copy@ == bytes@,
{
    let mut copy: Vec<u8> = Vec::new();
    let mut i: usize = 0;
    while i < bytes.len()
        invariant
            i <= bytes@.len(),
            copy@ == bytes@.take(i as int),
        decreases bytes@.len() - i,
    {
        copy.push(bytes[i]);
        i = i + 1;
        assert(copy@ =~= bytes@.take(i as int));
    }
    assert(copy@ =~= bytes@);
    copy
}

impl SdsUserData {
    /// The type on the wire.
    pub fn type_identifier(&self) -> (data_type: u8)
        ensures
            data_type == self@.wire_type(),
    {
        match self {
            SdsUserData::Type1(_) => 0,
            SdsUserData::Type2(_) => 1,
            SdsUserData::Type3(_) => 2,
            SdsUserData::Type4(_, _) => 3,
        }
    }

    /// The length in bits.
    pub fn length_bits(&self) -> (len: u16)
        ensures
            len == self@.length_bits(),
    {
        match self {
            SdsUserData::Type1(_) => 16,
            SdsUserData::Type2(_) => 32,
            SdsUserData::Type3(_) => 64,
            SdsUserData::Type4(len, _) => *len,
        }
    }

    /// The bytes on the wire.
    pub fn to_arr(&self) -> (bytes: Vec<u8>)
        ensures
            bytes@ == self@.bytes(),
    {
        match self {
            SdsUserData::Type1(value) => write_big_endian(*value as u64, 2),
            SdsUserData::Type2(value) => write_big_endian(*value as u64, 4),
            SdsUserData::Type3(value) => write_big_endian(*value, 8),
            SdsUserData::Type4(_, bytes) => copy_bytes(bytes),
        }
    }

    fn is_whole(&self) -> (r: bool)
        ensures
            r == self@.is_whole(),
    {
        match self {
            SdsUserData::Type4(len, bytes) => {
                let held: usize = bytes.len();
                held > 8191 || *len as usize <= held * 8
            },
            _ => true,
        }
    }
}

/// The short data on the wire, if it is any.
pub fn user_data_from_wire(data_type: u8, length_bits: u16, data: Vec<u8>) -> (user_data: Option<
    SdsUserData,
>)
    ensures
        match user_data {
            Some(read) => data_on_wire(data_type, length_bits, data@) == Some(read@),
            None => data_on_wire(data_type, length_bits, data@) is None,
        },
{
    if data_type == 0 && length_bits == 16 && data.len() == 2 {
        let value: u64 = read_big_endian(&data);
        Some(SdsUserData::Type1(#[verifier::truncate] (value as u16)))
    } else if data_type == 1 && length_bits == 32 && data.len() == 4 {
        let value: u64 = read_big_endian(&data);
        Some(SdsUserData::Type2(#[verifier::truncate] (value as u32)))
    } else if data_type == 2 && length_bits == 64 && data.len() == 8 {
        Some(SdsUserData::Type3(read_big_endian(&data)))
    } else if data_type == 3 && data.len() == (length_bits as usize + 7) / 8 {
        Some(SdsUserData::Type4(length_bits, data))
    } else {
        None
    }
}

/// The protocol and the reference of a message that wants a report.
pub fn sds_tl_context(data: &SdsUserData) -> (context: (Option<u8>, Option<u8>))
    ensures
        context == data@.context(),
{
    match data {
        SdsUserData::Type4(_, bytes) => if bytes.len() >= 3 && bytes[0] >= 0x80 {
            (Some(bytes[0]), Some(bytes[2]))
        } else {
            (None, None)
        },
        _ => (None, None),
    }
}

/// The status that reports a failed delivery.
pub open spec fn failure_status(cause: u8) -> u16 {
    if cause == SDS_FAILURE_SOURCE_NOT_AUTHORISED {
        STATUS_NOT_AUTHORISED
    } else if cause == SDS_FAILURE_DESTINATION_NOT_AUTHORISED {
        STATUS_DESTINATION_NOT_AUTHORISED
    } else if cause == SDS_FAILURE_UNKNOWN_DESTINATION {
        STATUS_DESTINATION_DOES_NOT_EXIST
    } else if cause == SDS_FAILURE_DESTINATION_NOT_REGISTERED || cause
        == SDS_FAILURE_DESTINATION_NOT_REACHABLE {
        STATUS_DESTINATION_NOT_REACHABLE
    } else {
        STATUS_GENERAL_NEGATIVE_ACK
    }
}

/// What a delivery is known by: a transaction of the SwMI, or a number of the
/// station.
#[derive(Debug, Clone, Copy, PartialEq, Eq, Structural)]
pub struct DeliveryKey {
    pub central: bool,
    pub id: u64,
}

impl Key for DeliveryKey {
    fn same(&self, other: &Self) -> (r: bool) {
        *self == *other
    }
}

/// A delivery whose acknowledgement is awaited.
#[derive(Debug, Clone, Copy, PartialEq, Eq, Structural)]
pub struct PendingSdsDelivery {
    pub transaction_id: Option<u64>,
    pub originator_issi: u32,
    pub destination_issi: u32,
    pub sds_tl_protocol_id: Option<u8>,
    pub message_reference: Option<u8>,
}

/// A delivery that has come to its end.
#[derive(Debug, Clone, Copy, PartialEq, Eq, Structural)]
pub struct FinishedDelivery {
    pub key: DeliveryKey,
    /// The terminal acknowledged it.
    pub acknowledged: bool,
}

/// A message that the sub-entity hands on.
#[derive(Debug)]
pub enum SdsMessage {
    /// D-SDS-DATA: acknowledged where it goes to a terminal. With `report`, what
    /// becomes of it is to be told.
    Data {
        source_issi: u32,
        destination_ssi: u32,
        to_group: bool,
        data: SdsUserData,
        report: Option<DeliveryKey>,
    },
    /// D-STATUS: acknowledged where it goes to a terminal.
    Status { source_issi: u32, destination_ssi: u32, to_group: bool, status: u16 },
    /// Short data for the SwMI to route.
    Submit {
        command_id: u64,
        source_issi: u64,
        destination_ssi: u32,
        destination_is_group: bool,
        data_type: u8,
        length_bits: u16,
        data: Vec<u8>,
    },
    /// A status for the SwMI to route.
    StatusSubmit { command_id: u64, source_issi: u64, destination_ssi: u32, status: u16 },
    /// What became of a delivery, for the SwMI.
    DeliveryResult { transaction_id: u64, destination_issi: u64, delivered: bool, cause: u8 },
}

/// The model of a message.
pub ghost enum SdsMessageView {
    Data {
        source_issi: u32,
        destination_ssi: u32,
        to_group: bool,
        data: SdsDataView,
        report: Option<DeliveryKey>,
    },
    Status { source_issi: u32, destination_ssi: u32, to_group: bool, status: u16 },
    Submit {
        command_id: u64,
        source_issi: u64,
        destination_ssi: u32,
        destination_is_group: bool,
        data_type: u8,
        length_bits: u16,
        data: Seq<u8>,
    },
    StatusSubmit { command_id: u64, source_issi: u64, destination_ssi: u32, status: u16 },
    DeliveryResult { transaction_id: u64, destination_issi: u64, delivered: bool, cause: u8 },
}

impl View for SdsMessage {
    type V = SdsMessageView;

    open spec fn view(&self) -> SdsMessageView {
        match self {
            SdsMessage::Data { source_issi, destination_ssi, to_group, data, report } =>
                SdsMessageView::Data {
                    source_issi: *source_issi,
                    destination_ssi: *destination_ssi,
                    to_group: *to_group,
                    data: data@,
                    report: *report,
                },
            SdsMessage::Status { source_issi, destination_ssi, to_group, status } =>
                SdsMessageView::Status {
                    source_issi: *source_issi,
                    destination_ssi: *destination_ssi,
                    to_group: *to_group,
                    status: *status,
                },
            SdsMessage::Submit {
                command_id,
                source_issi,
                destination_ssi,
                destination_is_group,
                data_type,
                length_bits,
                data,
            } => SdsMessageView::Submit {
                command_id: *command_id,
                source_issi: *source_issi,
                destination_ssi: *destination_ssi,
                destination_is_group: *destination_is_group,
                data_type: *data_type,
                length_bits: *length_bits,
                data: data@,
            },
            SdsMessage::StatusSubmit { command_id, source_issi, destination_ssi, status } =>
                SdsMessageView::StatusSubmit {
                    command_id: *command_id,
                    source_issi: *source_issi,
                    destination_ssi: *destination_ssi,
                    status: *status,
                },
            SdsMessage::DeliveryResult { transaction_id, destination_issi, delivered, cause } =>
                SdsMessageView::DeliveryResult {
                    transaction_id: *transaction_id,
                    destination_issi: *destination_issi,
                    delivered: *delivered,
                    cause: *cause,
                },
        }
    }
}

/// The models of a queue of messages.
pub open spec fn sds_messages(queue: Seq<SdsMessage>) -> Seq<SdsMessageView> {
    queue.map_values(|message: SdsMessage| message@)
}

/// The state of the sub-entity with what surrounds it.
#[verifier::ext_equal]
pub ghost struct SdsRun {
    pub next_command_id: u64,
    pub next_local_id: u64,
    pub pending: Seq<(DeliveryKey, PendingSdsDelivery)>,
    pub queue: Seq<SdsMessageView>,
    pub link: SwmiEndpoint,
}

/// Whether an identity is a group here: no registered terminal, but one that
/// terminals are attached to.
pub open spec fn is_local_group(
    registry: crate::bluestation::subscribers::RegistryView,
    ssi: u32,
) -> bool {
    !registry.registered(ssi) && registry.has_members(ssi)
}

/// Whether a destination is served here.
pub open spec fn is_local(
    registry: crate::bluestation::subscribers::RegistryView,
    ssi: u32,
    group: bool,
) -> bool {
    if group {
        registry.has_members(ssi)
    } else {
        registry.registered(ssi)
    }
}

/// The next number; zero is never one.
pub open spec fn next_number(id: u64) -> u64 {
    if id == u64::MAX {
        1
    } else {
        (id + 1) as u64
    }
}

impl SdsRun {
    /// With a message handed on.
    pub open spec fn pushed(self, message: SdsMessageView) -> SdsRun {
        SdsRun { queue: self.queue.push(message), ..self }
    }

    /// With a command number used.
    pub open spec fn numbered(self) -> SdsRun {
        SdsRun { next_command_id: next_number(self.next_command_id), ..self }
    }

    /// With a status sent.
    pub open spec fn status_sent(self, source_issi: u32, destination_ssi: u32, to_group: bool, status: u16) -> SdsRun {
        self.pushed(SdsMessageView::Status { source_issi, destination_ssi, to_group, status })
    }

    /// With short data sent, if its bytes hold its bits.
    pub open spec fn data_sent(
        self,
        source_issi: u32,
        destination_ssi: u32,
        to_group: bool,
        data: SdsDataView,
        report: Option<DeliveryKey>,
    ) -> SdsRun {
        if data.is_whole() {
            self.pushed(
                SdsMessageView::Data { source_issi, destination_ssi, to_group, data, report },
            )
        } else {
            self
        }
    }

    /// With a failure told to the originator: as a report where it wants one,
    /// otherwise as a status.
    pub open spec fn failure_sent(
        self,
        originator_issi: u32,
        cause: u8,
        protocol_id: Option<u8>,
        message_reference: Option<u8>,
    ) -> SdsRun {
        match (protocol_id, message_reference) {
            (Some(protocol), Some(reference)) => self.data_sent(
                SWMI_ISSI,
                originator_issi,
                false,
                SdsDataView::Type4(32, seq![protocol, 0x10u8, cause, reference]),
                None,
            ),
            _ => self.status_sent(SWMI_ISSI, originator_issi, false, failure_status(cause)),
        }
    }

    /// With what became of a transaction reported to the SwMI, if there is one.
    pub open spec fn reported(
        self,
        transaction_id: u64,
        destination_issi: u32,
        delivered: bool,
        cause: u8,
    ) -> SdsRun {
        if transaction_id != 0 && self.link.takes() {
            self.pushed(
                SdsMessageView::DeliveryResult {
                    transaction_id,
                    destination_issi: destination_issi as u64,
                    delivered,
                    cause,
                },
            )
        } else {
            self
        }
    }

    /// With a delivery that came to its end settled.
    pub open spec fn finished(self, delivery: FinishedDelivery) -> SdsRun {
        match crate::table::lookup(self.pending, delivery.key) {
            None => self,
            Some(pending) => {
                let taken = SdsRun {
                    pending: crate::table::del(self.pending, delivery.key),
                    ..self
                };
                match pending.transaction_id {
                    Some(transaction) => taken.reported(
                        transaction,
                        pending.destination_issi,
                        delivery.acknowledged,
                        if delivery.acknowledged {
                            0
                        } else {
                            SDS_FAILURE_DELIVERY_FAILED
                        },
                    ),
                    None => if delivery.acknowledged {
                        taken
                    } else {
                        taken.failure_sent(
                            pending.originator_issi,
                            SDS_FAILURE_DELIVERY_FAILED,
                            pending.sds_tl_protocol_id,
                            pending.message_reference,
                        )
                    },
                }
            },
        }
    }

    /// With deliveries that came to their end settled.
    pub open spec fn all_finished(self, deliveries: Seq<FinishedDelivery>) -> SdsRun
        decreases deliveries.len(),
    {
        if deliveries.len() == 0 {
            self
        } else {
            self.all_finished(deliveries.drop_last()).finished(deliveries.last())
        }
    }

    /// With a delivery awaited.
    pub open spec fn awaiting(self, key: DeliveryKey, pending: PendingSdsDelivery) -> SdsRun {
        SdsRun {
            next_local_id: if key.central {
                self.next_local_id
            } else {
                next_number(self.next_local_id)
            },
            pending: crate::table::put(self.pending, key, pending),
            ..self
        }
    }

    /// Short data delivered by the station alone.
    pub open spec fn delivered_locally(
        self,
        registry: crate::bluestation::subscribers::RegistryView,
        source_issi: u32,
        destination_ssi: u32,
        to_group: bool,
        data: SdsDataView,
    ) -> SdsRun {
        if !is_local(registry, destination_ssi, to_group) {
            self.failure_sent(source_issi, SDS_FAILURE_DESTINATION_NOT_REACHABLE, None, None)
        } else if !data.is_whole() {
            self.failure_sent(
                source_issi,
                SDS_FAILURE_DELIVERY_FAILED,
                data.context().0,
                data.context().1,
            )
        } else if to_group {
            self.data_sent(source_issi, destination_ssi, true, data, None)
        } else {
            let key = DeliveryKey { central: false, id: self.next_local_id };
            self.data_sent(source_issi, destination_ssi, false, data, Some(key)).awaiting(
                key,
                PendingSdsDelivery {
                    transaction_id: None,
                    originator_issi: source_issi,
                    destination_issi: destination_ssi,
                    sds_tl_protocol_id: data.context().0,
                    message_reference: data.context().1,
                },
            )
        }
    }

    /// Short data submitted to the SwMI, or a failure where it does not take it.
    pub open spec fn submitted(
        self,
        source_issi: u32,
        destination_ssi: u32,
        destination_is_group: bool,
        data: SdsDataView,
        protocol_id: Option<u8>,
        message_reference: Option<u8>,
    ) -> SdsRun {
        if self.link.takes() {
            self.numbered().pushed(
                SdsMessageView::Submit {
                    command_id: self.next_command_id,
                    source_issi: source_issi as u64,
                    destination_ssi,
                    destination_is_group,
                    data_type: data.wire_type(),
                    length_bits: data.length_bits(),
                    data: data.bytes(),
                },
            )
        } else {
            self.numbered().failure_sent(
                source_issi,
                SDS_FAILURE_DELIVERY_FAILED,
                protocol_id,
                message_reference,
            )
        }
    }

    /// U-SDS-DATA.
    pub open spec fn uplink_data(
        self,
        registry: crate::bluestation::subscribers::RegistryView,
        source_issi: u32,
        destination_ssi: u32,
        data: SdsDataView,
    ) -> SdsRun {
        let group = is_local_group(registry, destination_ssi);
        if self.link.is_online() {
            self.submitted(source_issi, destination_ssi, group, data, None, None)
        } else {
            self.delivered_locally(registry, source_issi, destination_ssi, group, data)
        }
    }

    /// U-STATUS.
    pub open spec fn uplink_status(
        self,
        registry: crate::bluestation::subscribers::RegistryView,
        source_issi: u32,
        destination_ssi: u32,
        status: u16,
    ) -> SdsRun {
        if self.link.is_online() {
            if self.link.takes() {
                self.numbered().pushed(
                    SdsMessageView::StatusSubmit {
                        command_id: self.next_command_id,
                        source_issi: source_issi as u64,
                        destination_ssi,
                        status,
                    },
                )
            } else {
                self.numbered().status_sent(
                    SWMI_ISSI,
                    source_issi,
                    false,
                    STATUS_GENERAL_NEGATIVE_ACK,
                )
            }
        } else if registry.registered(destination_ssi) {
            self.status_sent(source_issi, destination_ssi, false, status)
        } else {
            self.status_sent(SWMI_ISSI, source_issi, false, STATUS_DESTINATION_NOT_REACHABLE)
        }
    }

    /// Short data from Brew.
    pub open spec fn brew_data(
        self,
        registry: crate::bluestation::subscribers::RegistryView,
        source_issi: u32,
        destination_ssi: u32,
        data: SdsDataView,
    ) -> SdsRun {
        if self.link.is_online() {
            self.submitted(
                source_issi,
                destination_ssi,
                is_local_group(registry, destination_ssi),
                data,
                data.context().0,
                data.context().1,
            )
        } else if registry.registered(destination_ssi) {
            self.data_sent(source_issi, destination_ssi, false, data, None)
        } else {
            self
        }
    }

    /// Short data from the control interface, and whether it was taken.
    pub open spec fn control_data(
        self,
        registry: crate::bluestation::subscribers::RegistryView,
        source_ssi: u32,
        dest_ssi: u32,
        dest_is_group: bool,
        len_bits: u16,
        payload: Seq<u8>,
    ) -> (SdsRun, bool) {
        let data = SdsDataView::Type4(len_bits, payload);
        if self.link.is_online() {
            if self.link.takes() {
                (
                    self.numbered().pushed(
                        SdsMessageView::Submit {
                            command_id: self.next_command_id,
                            source_issi: source_ssi as u64,
                            destination_ssi: dest_ssi,
                            destination_is_group: dest_is_group,
                            data_type: 3,
                            length_bits: len_bits,
                            data: payload,
                        },
                    ),
                    true,
                )
            } else {
                (self.numbered(), false)
            }
        } else if is_local(registry, dest_ssi, dest_is_group) && data.is_whole() {
            (self.data_sent(source_ssi, dest_ssi, dest_is_group, data, None), true)
        } else {
            (self, false)
        }
    }

    /// Short data that the SwMI has for a destination here.
    pub open spec fn central_data(
        self,
        registry: crate::bluestation::subscribers::RegistryView,
        transaction_id: u64,
        source_issi: u32,
        destination_ssi: u32,
        destination_is_group: bool,
        data: Option<SdsDataView>,
    ) -> SdsRun {
        match data {
            None => self.reported(
                transaction_id,
                destination_ssi,
                false,
                SDS_FAILURE_DELIVERY_FAILED,
            ),
            Some(read) => if !is_local(registry, destination_ssi, destination_is_group) {
                self.reported(
                    transaction_id,
                    destination_ssi,
                    false,
                    SDS_FAILURE_DESTINATION_NOT_REACHABLE,
                )
            } else if !read.is_whole() {
                self.reported(transaction_id, destination_ssi, false, SDS_FAILURE_DELIVERY_FAILED)
            } else if destination_is_group || transaction_id == 0 {
                self.data_sent(source_issi, destination_ssi, destination_is_group, read, None)
            } else {
                let key = DeliveryKey { central: true, id: transaction_id };
                self.data_sent(source_issi, destination_ssi, false, read, Some(key)).awaiting(
                    key,
                    PendingSdsDelivery {
                        transaction_id: Some(transaction_id),
                        originator_issi: source_issi,
                        destination_issi: destination_ssi,
                        sds_tl_protocol_id: None,
                        message_reference: None,
                    },
                )
            },
        }
    }

    /// A status that the SwMI has for a destination here.
    pub open spec fn central_status(
        self,
        registry: crate::bluestation::subscribers::RegistryView,
        source_issi: u32,
        destination_ssi: u32,
        status: u16,
    ) -> SdsRun {
        self.status_sent(
            source_issi,
            destination_ssi,
            !registry.registered(destination_ssi),
            status,
        )
    }
}

/// What the sub-entity sees and reaches.
pub struct SdsPort {
    pub queue: Vec<SdsMessage>,
    pub link: SwmiEndpoint,
}

impl SdsPort {
    fn push(&mut self, message: SdsMessage)
        ensures
            final(self).link == old(self).link,
            sds_messages(final(self).queue@) == sds_messages(old(self).queue@).push(message@),
    {
        let ghost before = self.queue@;
        self.queue.push(message);
        assert(sds_messages(self.queue@) =~= sds_messages(before).push(message@));
    }
}

/// U-SDS-DATA, as far as the station reads it.
#[derive(Debug)]
pub struct USdsData {
    pub called_party_ssi: Option<u32>,
    pub has_called_party_extension: bool,
    pub has_external_subscriber_number: bool,
    pub has_dm_ms_address: bool,
    pub user_defined_data: SdsUserData,
}

/// U-STATUS, as far as the station reads it.
#[derive(Debug, Clone, Copy, PartialEq, Eq, Structural)]
pub struct UStatus {
    pub called_party_ssi: Option<u32>,
    pub has_called_party_extension: bool,
    pub has_external_subscriber_number: bool,
    pub has_dm_ms_address: bool,
    pub pre_coded_status: u16,
}

/// Whether the station can serve the address: a short identity alone.
pub open spec fn plain_address(
    ssi: Option<u32>,
    extension: bool,
    external: bool,
    dm_ms: bool,
) -> bool {
    ssi is Some && !extension && !external && !dm_ms
}

/// A message from the SwMI.
#[derive(Debug)]
pub enum SdsSwmiMessage {
    Deliver {
        transaction_id: u64,
        source_issi: u64,
        destination_ssi: u32,
        destination_is_group: bool,
        data_type: u8,
        length_bits: u16,
        data: Vec<u8>,
    },
    Failure {
        originator_issi: u64,
        destination_ssi: u32,
        cause: u8,
        sds_tl_protocol_id: Option<u8>,
        message_reference: Option<u8>,
    },
    StatusDeliver { source_issi: u64, destination_ssi: u32, status: u16 },
}

impl SdsRun {
    /// U-SDS-DATA of a terminal. One that is not addressed by a short identity
    /// alone is not served.
    pub open spec fn data_received(
        self,
        registry: crate::bluestation::subscribers::RegistryView,
        source_issi: u32,
        pdu: USdsData,
    ) -> SdsRun {
        if plain_address(
            pdu.called_party_ssi,
            pdu.has_called_party_extension,
            pdu.has_external_subscriber_number,
            pdu.has_dm_ms_address,
        ) {
            self.uplink_data(
                registry,
                source_issi,
                pdu.called_party_ssi->0,
                pdu.user_defined_data@,
            )
        } else {
            self
        }
    }

    /// U-STATUS of a terminal. One that is not addressed by a short identity
    /// alone is not served.
    pub open spec fn status_received(
        self,
        registry: crate::bluestation::subscribers::RegistryView,
        source_issi: u32,
        pdu: UStatus,
    ) -> SdsRun {
        if plain_address(
            pdu.called_party_ssi,
            pdu.has_called_party_extension,
            pdu.has_external_subscriber_number,
            pdu.has_dm_ms_address,
        ) {
            self.uplink_status(registry, source_issi, pdu.called_party_ssi->0, pdu.pre_coded_status)
        } else {
            self
        }
    }

    /// A message from the SwMI.
    pub open spec fn swmi_action(
        self,
        registry: crate::bluestation::subscribers::RegistryView,
        message: SdsSwmiMessage,
    ) -> SdsRun {
        match message {
            SdsSwmiMessage::Deliver {
                transaction_id,
                source_issi,
                destination_ssi,
                destination_is_group,
                data_type,
                length_bits,
                data,
            } => self.central_data(
                registry,
                transaction_id,
                source_issi as u32,
                destination_ssi,
                destination_is_group,
                data_on_wire(data_type, length_bits, data@),
            ),
            SdsSwmiMessage::Failure {
                originator_issi,
                destination_ssi,
                cause,
                sds_tl_protocol_id,
                message_reference,
            } => self.failure_sent(
                originator_issi as u32,
                cause,
                sds_tl_protocol_id,
                message_reference,
            ),
            SdsSwmiMessage::StatusDeliver { source_issi, destination_ssi, status } => self.central_status(
                registry,
                source_issi as u32,
                destination_ssi,
                status,
            ),
        }
    }
}

/// The short data and status sub-entity.
pub struct SdsBsSubentity {
    next_command_id: u64,
    next_local_delivery_id: u64,
    pending_deliveries: Table<DeliveryKey, PendingSdsDelivery>,
}

impl SdsBsSubentity {
    /// The next command number.
    pub closed spec fn next_command(&self) -> u64 {
        self.next_command_id
    }

    /// The next number of a local delivery.
    pub closed spec fn next_local(&self) -> u64 {
        self.next_local_delivery_id
    }

    /// The deliveries that are awaited.
    pub closed spec fn pending_view(&self) -> Seq<(DeliveryKey, PendingSdsDelivery)> {
        self.pending_deliveries@
    }

    /// The state with what surrounds it.
    pub open spec fn run(&self, port: SdsPort) -> SdsRun {
        SdsRun {
            next_command_id: self.next_command(),
            next_local_id: self.next_local(),
            pending: self.pending_view(),
            queue: sds_messages(port.queue@),
            link: port.link,
        }
    }

    /// Nothing is awaited.
    pub fn new() -> (sds: Self)
        ensures
            sds.next_command() == 1,
            sds.next_local() == 1,
            sds.pending_view() == Seq::<(DeliveryKey, PendingSdsDelivery)>::empty(),
    {
        SdsBsSubentity {
            next_command_id: 1,
            next_local_delivery_id: 1,
            pending_deliveries: Table::new(),
        }
    }

    /// Whether a message of the SwMI is for this sub-entity.
    #[verifier::allow_in_spec]
    pub fn is_swmi_action(kind: SwmiMessageKind) -> bool
        returns
            (kind == SwmiMessageKind::SdsDeliver || kind == SwmiMessageKind::SdsFailure || kind
                == SwmiMessageKind::StatusDeliver),
    {
        kind == SwmiMessageKind::SdsDeliver || kind == SwmiMessageKind::SdsFailure || kind
            == SwmiMessageKind::StatusDeliver
    }

    fn take_command_id(&mut self) -> (id: u64)
        ensures
            id == old(self).next_command(),
            final(self).next_command() == next_number(old(self).next_command()),
            final(self).next_local() == old(self).next_local(),
            final(self).pending_view() == old(self).pending_view(),
    {
        let id: u64 = self.next_command_id;
        self.next_command_id = if id == 0xffff_ffff_ffff_ffff {
            1
        } else {
            id + 1
        };
        id
    }

    fn send_d_status(
        &self,
        port: &mut SdsPort,
        source_issi: u32,
        destination_ssi: u32,
        to_group: bool,
        status: u16,
    )
        ensures
            self.run(*final(port)) == self.run(*old(port)).status_sent(
                source_issi,
                destination_ssi,
                to_group,
                status,
            ),
    {
        port.push(SdsMessage::Status { source_issi, destination_ssi, to_group, status });
    }

    fn send_d_sds_data(
        &self,
        port: &mut SdsPort,
        source_issi: u32,
        destination_ssi: u32,
        to_group: bool,
        data: SdsUserData,
        report: Option<DeliveryKey>,
    ) -> (sent: bool)
        ensures
            sent == data@.is_whole(),
            self.run(*final(port)) == self.run(*old(port)).data_sent(
                source_issi,
                destination_ssi,
                to_group,
                data@,
                report,
            ),
    {
        if !data.is_whole() {
            return false;
        }
        port.push(SdsMessage::Data { source_issi, destination_ssi, to_group, data, report });
        true
    }

    fn send_swmi_failure(
        &self,
        port: &mut SdsPort,
        originator_issi: u32,
        cause: u8,
        protocol_id: Option<u8>,
        message_reference: Option<u8>,
    )
        ensures
            self.run(*final(port)) == self.run(*old(port)).failure_sent(
                originator_issi,
                cause,
                protocol_id,
                message_reference,
            ),
    {
        if let (Some(protocol), Some(reference)) = (protocol_id, message_reference) {
            let mut bytes: Vec<u8> = Vec::new();
            bytes.push(protocol);
            bytes.push(0x10);
            bytes.push(cause);
            bytes.push(reference);
            assert(bytes@ =~= seq![protocol, 0x10u8, cause, reference]);
            self.send_d_sds_data(
                port,
                SWMI_ISSI,
                originator_issi,
                false,
                SdsUserData::Type4(32, bytes),
                None,
            );
            return;
        }
        let status: u16 = if cause == SDS_FAILURE_SOURCE_NOT_AUTHORISED {
            STATUS_NOT_AUTHORISED
        } else if cause == SDS_FAILURE_DESTINATION_NOT_AUTHORISED {
            STATUS_DESTINATION_NOT_AUTHORISED
        } else if cause == SDS_FAILURE_UNKNOWN_DESTINATION {
            STATUS_DESTINATION_DOES_NOT_EXIST
        } else if cause == SDS_FAILURE_DESTINATION_NOT_REGISTERED || cause
            == SDS_FAILURE_DESTINATION_NOT_REACHABLE {
            STATUS_DESTINATION_NOT_REACHABLE
        } else {
            STATUS_GENERAL_NEGATIVE_ACK
        };
        self.send_d_status(port, SWMI_ISSI, originator_issi, false, status);
    }

    fn report_delivery(
        &self,
        port: &mut SdsPort,
        transaction_id: u64,
        destination_issi: u32,
        delivered: bool,
        cause: u8,
    )
        ensures
            self.run(*final(port)) == self.run(*old(port)).reported(
                transaction_id,
                destination_issi,
                delivered,
                cause,
            ),
    {
        if transaction_id != 0 && port.link.takes() {
            port.push(
                SdsMessage::DeliveryResult {
                    transaction_id,
                    destination_issi: destination_issi as u64,
                    delivered,
                    cause,
                },
            );
        }
    }

    fn finish(&mut self, port: &mut SdsPort, delivery: FinishedDelivery)
        ensures
            final(self).run(*final(port)) == old(self).run(*old(port)).finished(delivery),
    {
        proof {
            crate::table::lemma_del_absent_if(self.pending_deliveries@, delivery.key);
        }
        let pending: PendingSdsDelivery = match self.pending_deliveries.remove(delivery.key) {
            Some(pending) => pending,
            None => return,
        };
        match pending.transaction_id {
            Some(transaction) => {
                let cause: u8 = if delivery.acknowledged {
                    0
                } else {
                    SDS_FAILURE_DELIVERY_FAILED
                };
                self.report_delivery(
                    port,
                    transaction,
                    pending.destination_issi,
                    delivery.acknowledged,
                    cause,
                );
            },
            None => {
                if !delivery.acknowledged {
                    self.send_swmi_failure(
                        port,
                        pending.originator_issi,
                        SDS_FAILURE_DELIVERY_FAILED,
                        pending.sds_tl_protocol_id,
                        pending.message_reference,
                    );
                }
            },
        }
    }

    /// One slot passes: deliveries that came to their end are settled.
    pub fn tick_start(&mut self, port: &mut SdsPort, finished: &Vec<FinishedDelivery>)
        ensures
            final(self).run(*final(port)) == old(self).run(*old(port)).all_finished(finished@),
    {
        let ghost before = self.run(*port);
        let mut i: usize = 0;
        while i < finished.len()
            invariant
                i <= finished@.len(),
                self.run(*port) == before.all_finished(finished@.take(i as int)),
            decreases finished@.len() - i,
        {
            proof {
                assert(finished@.take(i + 1).drop_last() =~= finished@.take(i as int));
                assert(finished@.take(i + 1).last() == finished@[i as int]);
            }
            self.finish(port, finished[i]);
            i = i + 1;
        }
        assert(finished@.take(finished@.len() as int) =~= finished@);
    }

    fn track_local(&mut self, port: &mut SdsPort, pending: PendingSdsDelivery)
        ensures
            *final(port) == *old(port),
            final(self).run(*final(port)) == old(self).run(*old(port)).awaiting(
                DeliveryKey { central: false, id: old(self).next_local() },
                pending,
            ),
    {
        let id: u64 = self.next_local_delivery_id;
        self.next_local_delivery_id = if id == 0xffff_ffff_ffff_ffff {
            1
        } else {
            id + 1
        };
        self.pending_deliveries.insert(DeliveryKey { central: false, id }, pending);
    }

    fn route_lstr_sds(
        &mut self,
        port: &mut SdsPort,
        subscribers: &SubscriberRegistry,
        source_issi: u32,
        destination_ssi: u32,
        to_group: bool,
        data: SdsUserData,
    )
        ensures
            final(self).run(*final(port)) == old(self).run(*old(port)).delivered_locally(
                subscribers@,
                source_issi,
                destination_ssi,
                to_group,
                data@,
            ),
    {
        if !served_here(subscribers, destination_ssi, to_group) {
            self.send_swmi_failure(
                port,
                source_issi,
                SDS_FAILURE_DESTINATION_NOT_REACHABLE,
                None,
                None,
            );
            return;
        }
        let context = sds_tl_context(&data);
        let report: Option<DeliveryKey> = if to_group {
            None
        } else {
            Some(DeliveryKey { central: false, id: self.next_local_delivery_id })
        };
        if !self.send_d_sds_data(port, source_issi, destination_ssi, to_group, data, report) {
            self.send_swmi_failure(
                port,
                source_issi,
                SDS_FAILURE_DELIVERY_FAILED,
                context.0,
                context.1,
            );
        } else if !to_group {
            self.track_local(
                port,
                PendingSdsDelivery {
                    transaction_id: None,
                    originator_issi: source_issi,
                    destination_issi: destination_ssi,
                    sds_tl_protocol_id: context.0,
                    message_reference: context.1,
                },
            );
        }
    }

    fn submit_data(
        &mut self,
        port: &mut SdsPort,
        source_issi: u32,
        destination_ssi: u32,
        destination_is_group: bool,
        data: &SdsUserData,
        protocol_id: Option<u8>,
        message_reference: Option<u8>,
    )
        ensures
            final(self).run(*final(port)) == old(self).run(*old(port)).submitted(
                source_issi,
                destination_ssi,
                destination_is_group,
                data@,
                protocol_id,
                message_reference,
            ),
    {
        let command_id: u64 = self.take_command_id();
        if port.link.takes() {
            port.push(
                SdsMessage::Submit {
                    command_id,
                    source_issi: source_issi as u64,
                    destination_ssi,
                    destination_is_group,
                    data_type: data.type_identifier(),
                    length_bits: data.length_bits(),
                    data: data.to_arr(),
                },
            );
        } else {
            self.send_swmi_failure(
                port,
                source_issi,
                SDS_FAILURE_DELIVERY_FAILED,
                protocol_id,
                message_reference,
            );
        }
    }

    /// Whether the station can serve U-SDS-DATA.
    pub fn feature_check_u_sds_data(pdu: &USdsData) -> (supported: bool)
        ensures
            supported == plain_address(
                pdu.called_party_ssi,
                pdu.has_called_party_extension,
                pdu.has_external_subscriber_number,
                pdu.has_dm_ms_address,
            ),
    {
        pdu.called_party_ssi.is_some() && !pdu.has_called_party_extension
            && !pdu.has_external_subscriber_number && !pdu.has_dm_ms_address
    }

    /// Whether the station can serve U-STATUS.
    pub fn feature_check_u_status(pdu: &UStatus) -> (supported: bool)
        ensures
            supported == plain_address(
                pdu.called_party_ssi,
                pdu.has_called_party_extension,
                pdu.has_external_subscriber_number,
                pdu.has_dm_ms_address,
            ),
    {
        pdu.called_party_ssi.is_some() && !pdu.has_called_party_extension
            && !pdu.has_external_subscriber_number && !pdu.has_dm_ms_address
    }

    /// U-SDS-DATA. While the SwMI is connected it is submitted before any local
    /// state is considered.
    pub fn route_rf_deliver(
        &mut self,
        port: &mut SdsPort,
        subscribers: &SubscriberRegistry,
        source_issi: u32,
        pdu: USdsData,
    )
        ensures
            final(self).run(*final(port)) == old(self).run(*old(port)).data_received(
                subscribers@,
                source_issi,
                pdu,
            ),
    {
        if !SdsBsSubentity::feature_check_u_sds_data(&pdu) {
            return;
        }
        let destination_ssi: u32 = match pdu.called_party_ssi {
            Some(ssi) => ssi,
            None => return,
        };
        let group: bool = group_here(subscribers, destination_ssi);
        if port.link.is_online() {
            self.submit_data(
                port,
                source_issi,
                destination_ssi,
                group,
                &pdu.user_defined_data,
                None,
                None,
            );
        } else {
            self.route_lstr_sds(
                port,
                subscribers,
                source_issi,
                destination_ssi,
                group,
                pdu.user_defined_data,
            );
        }
    }

    /// U-STATUS. It is never turned into short data.
    pub fn route_status_deliver(
        &mut self,
        port: &mut SdsPort,
        subscribers: &SubscriberRegistry,
        source_issi: u32,
        pdu: &UStatus,
    )
        ensures
            final(self).run(*final(port)) == old(self).run(*old(port)).status_received(
                subscribers@,
                source_issi,
                *pdu,
            ),
    {
        if !SdsBsSubentity::feature_check_u_status(pdu) {
            return;
        }
        let destination_ssi: u32 = match pdu.called_party_ssi {
            Some(ssi) => ssi,
            None => return,
        };
        if port.link.is_online() {
            let command_id: u64 = self.take_command_id();
            if port.link.takes() {
                port.push(
                    SdsMessage::StatusSubmit {
                        command_id,
                        source_issi: source_issi as u64,
                        destination_ssi,
                        status: pdu.pre_coded_status,
                    },
                );
            } else {
                self.send_d_status(
                    port,
                    SWMI_ISSI,
                    source_issi,
                    false,
                    STATUS_GENERAL_NEGATIVE_ACK,
                );
            }
        } else if subscribers.is_registered(destination_ssi) {
            self.send_d_status(port, source_issi, destination_ssi, false, pdu.pre_coded_status);
        } else {
            self.send_d_status(
                port,
                SWMI_ISSI,
                source_issi,
                false,
                STATUS_DESTINATION_NOT_REACHABLE,
            );
        }
    }

    /// Short data from Brew.
    pub fn rx_sds_from_brew(
        &mut self,
        port: &mut SdsPort,
        subscribers: &SubscriberRegistry,
        source_issi: u32,
        dest_issi: u32,
        data: SdsUserData,
    )
        ensures
            final(self).run(*final(port)) == old(self).run(*old(port)).brew_data(
                subscribers@,
                source_issi,
                dest_issi,
                data@,
            ),
    {
        if port.link.is_online() {
            let group: bool = group_here(subscribers, dest_issi);
            let context = sds_tl_context(&data);
            self.submit_data(port, source_issi, dest_issi, group, &data, context.0, context.1);
            return;
        }
        if subscribers.is_registered(dest_issi) {
            self.send_d_sds_data(port, source_issi, dest_issi, false, data, None);
        }
    }

    /// Short data from the control interface; tells whether it was taken.
    pub fn rx_sds_from_control(
        &mut self,
        port: &mut SdsPort,
        subscribers: &SubscriberRegistry,
        source_ssi: u32,
        dest_ssi: u32,
        dest_is_group: bool,
        len_bits: u16,
        payload: Vec<u8>,
    ) -> (taken: bool)
        ensures
            (final(self).run(*final(port)), taken) == old(self).run(*old(port)).control_data(
                subscribers@,
                source_ssi,
                dest_ssi,
                dest_is_group,
                len_bits,
                payload@,
            ),
    {
        if port.link.is_online() {
            let command_id: u64 = self.take_command_id();
            if !port.link.takes() {
                return false;
            }
            port.push(
                SdsMessage::Submit {
                    command_id,
                    source_issi: source_ssi as u64,
                    destination_ssi: dest_ssi,
                    destination_is_group: dest_is_group,
                    data_type: 3,
                    length_bits: len_bits,
                    data: payload,
                },
            );
            return true;
        }
        served_here(subscribers, dest_ssi, dest_is_group) && self.send_d_sds_data(
            port,
            source_ssi,
            dest_ssi,
            dest_is_group,
            SdsUserData::Type4(len_bits, payload),
            None,
        )
    }

    fn deliver_from_swmi(
        &mut self,
        port: &mut SdsPort,
        subscribers: &SubscriberRegistry,
        transaction_id: u64,
        source_issi: u32,
        destination_ssi: u32,
        destination_is_group: bool,
        data: Option<SdsUserData>,
    )
        ensures
            final(self).run(*final(port)) == old(self).run(*old(port)).central_data(
                subscribers@,
                transaction_id,
                source_issi,
                destination_ssi,
                destination_is_group,
                match data {
                    Some(read) => Some(read@),
                    None => None,
                },
            ),
    {
        let read: SdsUserData = match data {
            Some(read) => read,
            None => {
                self.report_delivery(
                    port,
                    transaction_id,
                    destination_ssi,
                    false,
                    SDS_FAILURE_DELIVERY_FAILED,
                );
                return;
            },
        };
        if !served_here(subscribers, destination_ssi, destination_is_group) {
            self.report_delivery(
                port,
                transaction_id,
                destination_ssi,
                false,
                SDS_FAILURE_DESTINATION_NOT_REACHABLE,
            );
            return;
        }
        let awaiting: bool = !destination_is_group && transaction_id != 0;
        let key = DeliveryKey { central: true, id: transaction_id };
        let report: Option<DeliveryKey> = if awaiting {
            Some(key)
        } else {
            None
        };
        if !self.send_d_sds_data(
            port,
            source_issi,
            destination_ssi,
            destination_is_group,
            read,
            report,
        ) {
            self.report_delivery(
                port,
                transaction_id,
                destination_ssi,
                false,
                SDS_FAILURE_DELIVERY_FAILED,
            );
        } else if awaiting {
            self.pending_deliveries.insert(
                key,
                PendingSdsDelivery {
                    transaction_id: Some(transaction_id),
                    originator_issi: source_issi,
                    destination_issi: destination_ssi,
                    sds_tl_protocol_id: None,
                    message_reference: None,
                },
            );
        }
    }

    /// A message from the SwMI.
    pub fn handle_swmi_action(
        &mut self,
        port: &mut SdsPort,
        subscribers: &SubscriberRegistry,
        message: SdsSwmiMessage,
    )
        ensures
            final(self).run(*final(port)) == old(self).run(*old(port)).swmi_action(
                subscribers@,
                message,
            ),
    {
        match message {
            SdsSwmiMessage::Deliver {
                transaction_id,
                source_issi,
                destination_ssi,
                destination_is_group,
                data_type,
                length_bits,
                data,
            } => {
                let source: u32 = #[verifier::truncate] (source_issi as u32);
                let read: Option<SdsUserData> = user_data_from_wire(data_type, length_bits, data);
                self.deliver_from_swmi(
                    port,
                    subscribers,
                    transaction_id,
                    source,
                    destination_ssi,
                    destination_is_group,
                    read,
                );
            },
            SdsSwmiMessage::Failure {
                originator_issi,
                destination_ssi,
                cause,
                sds_tl_protocol_id,
                message_reference,
            } => {
                let originator: u32 = #[verifier::truncate] (originator_issi as u32);
                self.send_swmi_failure(
                    port,
                    originator,
                    cause,
                    sds_tl_protocol_id,
                    message_reference,
                );
            },
            SdsSwmiMessage::StatusDeliver { source_issi, destination_ssi, status } => {
                let source: u32 = #[verifier::truncate] (source_issi as u32);
                let to_group: bool = !subscribers.is_registered(destination_ssi);
                self.send_d_status(port, source, destination_ssi, to_group, status);
            },
        }
    }
}

fn served_here(subscribers: &SubscriberRegistry, ssi: u32, group: bool) -> (r: bool)
    ensures
        r == is_local(subscribers@, ssi, group),
{
    if group {
        subscribers.has_group_members(ssi)
    } else {
        subscribers.is_registered(ssi)
    }
}

fn group_here(subscribers: &SubscriberRegistry, ssi: u32) -> (r: bool)
    ensures
        r == is_local_group(subscribers@, ssi),
{
    !subscribers.is_registered(ssi) && subscribers.has_group_members(ssi)
}

/// A awaiting delivery is settled once: when it came to its end it is no longer
/// awaited, and a second end changes nothing.
pub proof fn law_delivery_is_settled_once(
    run: SdsRun,
    delivery: FinishedDelivery,
    again: FinishedDelivery,
)
    requires
        again.key == delivery.key,
    ensures
        run.finished(delivery).finished(again) == run.finished(delivery),
{
    crate::table::law_lookup_after_del(run.pending, delivery.key, delivery.key);
}

/// While the SwMI is connected nothing is sent to a destination without it:
/// short data of a terminal goes to the SwMI or comes back as a failure.
pub proof fn law_connected_station_routes_nothing(
    run: SdsRun,
    registry: crate::bluestation::subscribers::RegistryView,
    source_issi: u32,
    destination_ssi: u32,
    data: SdsDataView,
)
    requires
        run.link.is_online(),
    ensures
        ({
            let after = run.uplink_data(registry, source_issi, destination_ssi, data);
            &&& after.queue.len() == run.queue.len() + 1
            &&& match after.queue.last() {
                SdsMessageView::Submit { .. } => true,
                SdsMessageView::Status { destination_ssi: to, .. } => to == source_issi,
                _ => false,
            }
        }),
{
}

} // verus!
