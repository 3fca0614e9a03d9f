//! The mobile link entity of a base station: it passes PDUs between the link
//! layer and the entities above it, prepares and restores terminals that change
//! cells, and offers the network broadcast.
use crate::bitbuffer::{BitBuffer, BitsView};
use crate::bluestation::network_broadcast::{
    AdvertisedView, CfgNetworkBroadcast, RuntimeNetworkBroadcast,
};
use crate::cmce::pdu::{AssociatedChannel, Layer2Service, TetraAddress};
use crate::mle::broadcast::{
    BroadcastPduView, CarouselView, DNwrkBroadcast, MleBroadcast, NeighbourView,
};
use crate::mm::pdu::{LocationUpdateType, SeamlessHandover};
use crate::net_swmi::protocol::NeighbourCellSnapshot;
use crate::table::Table;
use crate::tdma::TdmaTime;
use vstd::prelude::*;

verus! {

/// The slots from one network broadcast to the next: five multiframes.
pub const MLE_BROADCAST_INTERVAL_TIMESLOTS: i32 = 360;

/// The slots by which a message is handed on ahead of its transmission.
pub const MLE_BROADCAST_TX_AHEAD_TIMESLOTS: i32 = 1;

/// The slots for which a prepared change of cells waits for its answer: five
/// seconds.
pub const T370_TIMESLOTS: i32 = 360;

/// The first four bits of U-LOCATION UPDATE DEMAND.
pub const U_LOCATION_UPDATE_DEMAND: u64 = 2;

/// The first four bits of D-LOCATION UPDATE ACCEPT.
pub const D_LOCATION_UPDATE_ACCEPT: u64 = 5;

/// The first four bits of D-LOCATION UPDATE REJECT.
pub const D_LOCATION_UPDATE_REJECT: u64 = 7;

/// The entity that a PDU is for.
#[derive(Debug, Clone, Copy, PartialEq, Eq, Structural)]
pub enum MleProtocolDiscriminator {
    Mm,
    Cmce,
    Sndcp,
    Mle,
    TetraManagementEntity,
}

impl MleProtocolDiscriminator {
    /// The three-bit code on the air.
    #[verifier::allow_in_spec]
    pub fn into_raw(self) -> u64
        returns
            (match self {
                MleProtocolDiscriminator::Mm => 1u64,
                MleProtocolDiscriminator::Cmce => 2u64,
                MleProtocolDiscriminator::Sndcp => 4u64,
                MleProtocolDiscriminator::Mle => 5u64,
                MleProtocolDiscriminator::TetraManagementEntity => 6u64,
            }),
    {
        match self {
            MleProtocolDiscriminator::Mm => 1,
            MleProtocolDiscriminator::Cmce => 2,
            MleProtocolDiscriminator::Sndcp => 4,
            MleProtocolDiscriminator::Mle => 5,
            MleProtocolDiscriminator::TetraManagementEntity => 6,
        }
    }

    /// The entity with a code, if there is one.
    pub fn from_raw(code: u64) -> (entity: Option<Self>)
        ensures
            match entity {
                Some(named) => named.into_raw() == code,
                None => forall|named: MleProtocolDiscriminator| named.into_raw() != code,
            },
    {
        if code == 1 {
            Some(MleProtocolDiscriminator::Mm)
        } else if code == 2 {
            Some(MleProtocolDiscriminator::Cmce)
        } else if code == 4 {
            Some(MleProtocolDiscriminator::Sndcp)
        } else if code == 5 {
            Some(MleProtocolDiscriminator::Mle)
        } else if code == 6 {
            Some(MleProtocolDiscriminator::TetraManagementEntity)
        } else {
            None
        }
    }
}

/// A channel that goes with a downlink PDU. It replaces the one in use, in both
/// directions.
#[derive(Debug, Clone, Copy, PartialEq, Eq)]
pub struct CmceChanAllocReq {
    pub usage: Option<u8>,
    pub carrier: Option<u16>,
    /// Timeslots 1 to 4.
    pub timeslots: (bool, bool, bool, bool),
    pub cell_change_flag: bool,
}

/// The channel that a terminal finds at its new cell.
#[verifier::allow_in_spec]
pub fn seamless_handover_allocation(handover: SeamlessHandover) -> CmceChanAllocReq
    returns
        (CmceChanAllocReq {
            usage: Some(handover.usage),
            carrier: Some(handover.carrier),
            timeslots: (handover.ts1, handover.ts2, handover.ts3, handover.ts4),
            cell_change_flag: true,
        }),
{
    CmceChanAllocReq {
        usage: Some(handover.usage),
        carrier: Some(handover.carrier),
        timeslots: (handover.ts1, handover.ts2, handover.ts3, handover.ts4),
        cell_change_flag: true,
    }
}

/// A downlink PDU of this entity.
#[derive(Debug)]
pub enum MlePdu {
    DNewCell { channel_command_valid: u8, sdu: Option<Vec<bool>> },
    DPrepareFail { fail_cause: u8, sdu: Option<Vec<bool>> },
    DRestoreAck { sdu: Vec<bool> },
    DRestoreFail { fail_cause: u8 },
}

/// The model of a downlink PDU.
pub ghost enum MlePduView {
    DNewCell { channel_command_valid: u8, sdu: Option<Seq<bool>> },
    DPrepareFail { fail_cause: u8, sdu: Option<Seq<bool>> },
    DRestoreAck { sdu: Seq<bool> },
    DRestoreFail { fail_cause: u8 },
}

/// The bits of a PDU that may be left out.
pub open spec fn sdu_view(sdu: Option<Vec<bool>>) -> Option<Seq<bool>> {
    match sdu {
        Some(bits) => Some(bits@),
        None => None,
    }
}

impl View for MlePdu {
    type V = MlePduView;

    open spec fn view(&self) -> MlePduView {
        match self {
            MlePdu::DNewCell { channel_command_valid, sdu } => MlePduView::DNewCell {
                channel_command_valid: *channel_command_valid,
                sdu: sdu_view(*sdu),
            },
            MlePdu::DPrepareFail { fail_cause, sdu } => MlePduView::DPrepareFail {
                fail_cause: *fail_cause,
                sdu: sdu_view(*sdu),
            },
            MlePdu::DRestoreAck { sdu } => MlePduView::DRestoreAck { sdu: sdu@ },
            MlePdu::DRestoreFail { fail_cause } => MlePduView::DRestoreFail {
                fail_cause: *fail_cause,
            },
        }
    }
}

/// A PDU for the link layer, besides its bits.
#[derive(Debug, Clone, Copy)]
pub struct LinkHead {
    pub layer2service: Layer2Service,
    pub main_address: TetraAddress,
    pub link_id: u32,
    pub endpoint_id: u32,
    pub stealing_permission: bool,
    pub chan_alloc: Option<CmceChanAllocReq>,
    pub associated_channel: Option<AssociatedChannel>,
    /// Under which number the sender is told what became of the PDU.
    pub receipt: Option<u64>,
}

/// Where an uplink PDU came from.
#[derive(Debug, Clone, Copy, PartialEq, Eq, Structural)]
pub struct UplinkHead {
    pub address: TetraAddress,
    pub endpoint_id: u32,
    pub link_id: u32,
}

/// What this entity hands on.
#[derive(Debug)]
pub enum MleMessage {
    /// D-NWRK-BROADCAST, to everyone.
    Broadcast(DNwrkBroadcast),
    /// A PDU of this entity, acknowledged.
    Downlink { address: TetraAddress, pdu: MlePdu, chan_alloc: Option<CmceChanAllocReq> },
    /// A PDU for the link layer.
    Link { head: LinkHead, sdu: Vec<bool> },
    /// A PDU for mobility management, and the cell that will serve the terminal.
    ToMm { sdu: BitBuffer, address: TetraAddress, target: Option<String> },
    /// A PDU for circuit mode control.
    ToCmce { sdu: BitBuffer, head: UplinkHead },
    /// A PDU for packet data.
    ToSndcp { sdu: BitBuffer, head: UplinkHead },
    /// A PDU for this entity, to be read.
    ToMle { sdu: BitBuffer, head: UplinkHead },
    /// What became of new settings of the broadcast.
    SettingsAnswer { handle: u32, version: u64, error: Option<&'static str> },
}

/// The model of what this entity hands on.
pub ghost enum MleMessageView {
    Broadcast(BroadcastPduView),
    Downlink { address: TetraAddress, pdu: MlePduView, chan_alloc: Option<CmceChanAllocReq> },
    Link { head: LinkHead, sdu: Seq<bool> },
    ToMm { sdu: BitsView, address: TetraAddress, target: Option<Seq<char>> },
    ToCmce { sdu: BitsView, head: UplinkHead },
    ToSndcp { sdu: BitsView, head: UplinkHead },
    ToMle { sdu: BitsView, head: UplinkHead },
    SettingsAnswer { handle: u32, version: u64, error: Option<Seq<char>> },
}

impl View for MleMessage {
    type V = MleMessageView;

    open spec fn view(&self) -> MleMessageView {
        match self {
            MleMessage::Broadcast(pdu) => MleMessageView::Broadcast(pdu@),
            MleMessage::Downlink { address, pdu, chan_alloc } => MleMessageView::Downlink {
                address: *address,
                pdu: pdu@,
                chan_alloc: *chan_alloc,
            },
            MleMessage::Link { head, sdu } => MleMessageView::Link { head: *head, sdu: sdu@ },
            MleMessage::ToMm { sdu, address, target } => MleMessageView::ToMm {
                sdu: sdu@,
                address: *address,
                target: match target {
                    Some(name) => Some(name@),
                    None => None,
                },
            },
            MleMessage::ToCmce { sdu, head } => MleMessageView::ToCmce { sdu: sdu@, head: *head },
            MleMessage::ToSndcp { sdu, head } => MleMessageView::ToSndcp {
                sdu: sdu@,
                head: *head,
            },
            MleMessage::ToMle { sdu, head } => MleMessageView::ToMle { sdu: sdu@, head: *head },
            MleMessage::SettingsAnswer { handle, version, error } =>
                MleMessageView::SettingsAnswer {
                    handle: *handle,
                    version: *version,
                    error: match error {
                        Some(text) => Some(text@),
                        None => None,
                    },
                },
        }
    }
}

/// The models of a queue of messages.
pub open spec fn mle_messages(queue: Seq<MleMessage>) -> Seq<MleMessageView> {
    queue.map_values(|message: MleMessage| message@)
}

/// The PDU of mobility management inside U-PREPARE: its bits, and the type of
/// the location update that they ask for, if they can be read as one.
#[derive(Debug)]
pub struct EmbeddedMm {
    pub sdu: BitBuffer,
    pub location_update_type: Option<LocationUpdateType>,
}

/// U-PREPARE.
#[derive(Debug)]
pub struct UPrepare {
    pub cell_identifier_ca: Option<u8>,
    pub sdu: Option<EmbeddedMm>,
}

/// An uplink PDU of this entity; what cannot be read is left out.
#[derive(Debug)]
pub enum MleUplinkPdu {
    UPrepare(Option<UPrepare>),
    /// The PDU of circuit mode control inside U-RESTORE.
    URestore(Option<BitBuffer>),
    /// A PDU that the station does not serve.
    Other,
}

/// New settings of the broadcast.
pub struct SettingsUpdate {
    pub handle: u32,
    pub neighbour_ids: Vec<String>,
    pub broadcast: CfgNetworkBroadcast,
}

/// Whether a broadcast is due in a slot: on timeslot 1, and not before its time.
pub open spec fn broadcast_due(transmission_time: TdmaTime, next: Option<TdmaTime>) -> bool {
    transmission_time.t == 1 && match next {
        Some(at) => transmission_time.since(at) >= 0,
        None => true,
    }
}

/// Whether a broadcast is due in a slot.
pub fn network_broadcast_due(
    transmission_time: TdmaTime,
    next_broadcast: Option<TdmaTime>,
) -> (due: bool)
    ensures
        due == broadcast_due(transmission_time, next_broadcast),
{
    transmission_time.t == 1 && match next_broadcast {
        Some(next) => transmission_time.age(next) >= 0,
        None => true,
    }
}

/// The bits of a PDU behind the code of its entity.
pub open spec fn framed(entity: MleProtocolDiscriminator, sdu: Seq<bool>) -> Seq<bool> {
    crate::bitbuffer::digits(entity.into_raw() as nat, 3) + sdu
}

fn frame(entity: MleProtocolDiscriminator, sdu: &BitBuffer) -> (bits: Vec<bool>)
    requires
        sdu@.bits.len() + 3 <= usize::MAX,
    ensures
        bits@ == framed(entity, sdu@.bits),
{
    let mut buffer: BitBuffer = BitBuffer::empty();
    buffer.write_bits(entity.into_raw(), 3);
    let mut bits: Vec<bool> = buffer.to_bits();
    let rest: Vec<bool> = sdu.to_bits();
    let ghost head = bits@;
    let mut i: usize = 0;
    while i < rest.len()
        invariant
            i <= rest@.len(),
            bits@ == head + rest@.take(i as int),
        decreases rest@.len() - i,
    {
        bits.push(rest[i]);
        i = i + 1;
        assert(bits@ =~= head + rest@.take(i as int));
    }
    assert(bits@ =~= framed(entity, sdu@.bits));
    bits
}

/// The number that the first four bits stand for, where there are so many.
pub open spec fn pdu_type(sdu: BitsView) -> Option<nat> {
    if sdu.pos + 4 <= sdu.bits.len() {
        Some(crate::bitbuffer::number(sdu.bits.subrange(sdu.pos, sdu.pos + 4)))
    } else {
        None
    }
}

/// The changes of cells whose time has not run out.
pub open spec fn still_waiting(
    entries: Seq<(u32, TdmaTime)>,
    now: TdmaTime,
) -> Seq<(u32, TdmaTime)>
    decreases entries.len(),
{
    if entries.len() == 0 {
        Seq::empty()
    } else if now.since(entries.last().1) >= 0 {
        still_waiting(entries.drop_last(), now)
    } else {
        still_waiting(entries.drop_last(), now).push(entries.last())
    }
}

/// A failed preparation.
pub open spec fn prepare_fail(address: TetraAddress, sdu: Option<Seq<bool>>) -> MleMessageView {
    MleMessageView::Downlink {
        address,
        pdu: MlePduView::DPrepareFail { fail_cause: 1, sdu },
        chan_alloc: None,
    }
}

/// A failed restoration.
pub open spec fn restore_fail(address: TetraAddress) -> MleMessageView {
    MleMessageView::Downlink {
        address,
        pdu: MlePduView::DRestoreFail { fail_cause: 1 },
        chan_alloc: None,
    }
}

/// A new cell that the terminal is to go to.
pub open spec fn new_cell(
    address: TetraAddress,
    channel_command_valid: u8,
    sdu: Option<Seq<bool>>,
    chan_alloc: Option<CmceChanAllocReq>,
) -> MleMessageView {
    MleMessageView::Downlink {
        address,
        pdu: MlePduView::DNewCell { channel_command_valid, sdu },
        chan_alloc,
    }
}

/// The failures that are sent when time runs out.
pub open spec fn timeouts(entries: Seq<(u32, TdmaTime)>, now: TdmaTime) -> Seq<MleMessageView>
    decreases entries.len(),
{
    if entries.len() == 0 {
        Seq::empty()
    } else if now.since(entries.last().1) >= 0 {
        timeouts(entries.drop_last(), now).push(
            prepare_fail(TetraAddress::issi(entries.last().0), None),
        )
    } else {
        timeouts(entries.drop_last(), now)
    }
}

/// The state of this entity with what surrounds it.
#[verifier::ext_equal]
pub ghost struct MleRun {
    pub carousel: CarouselView,
    pub advertised: AdvertisedView,
    /// The terminals that prepare a change of cells, each with its deadline.
    pub preparing: Seq<(u32, TdmaTime)>,
    /// The terminals that restore a call.
    pub restoring: Seq<(u32, bool)>,
    pub now: TdmaTime,
    pub next_broadcast: Option<TdmaTime>,
    pub queue: Seq<MleMessageView>,
}

/// The model of U-PREPARE.
pub ghost struct PrepareView {
    pub cell_identifier_ca: Option<u8>,
    pub sdu: Option<(BitsView, Option<LocationUpdateType>)>,
}

impl View for UPrepare {
    type V = PrepareView;

    open spec fn view(&self) -> PrepareView {
        PrepareView {
            cell_identifier_ca: self.cell_identifier_ca,
            sdu: match self.sdu {
                Some(embedded) => Some((embedded.sdu@, embedded.location_update_type)),
                None => None,
            },
        }
    }
}

impl MleRun {
    /// With a message handed on.
    pub open spec fn pushed(self, message: MleMessageView) -> MleRun {
        MleRun { queue: self.queue.push(message), ..self }
    }

    /// U-PREPARE.
    pub open spec fn prepare(self, address: TetraAddress, pdu: Option<PrepareView>) -> MleRun {
        match pdu {
            None => self.pushed(prepare_fail(address, None)),
            Some(read) => match read.cell_identifier_ca {
                // No preferred cell.
                None => self.pushed(new_cell(address, 1, None, None)),
                Some(identifier) => match crate::mle::broadcast::station_of(
                    self.carousel.neighbours,
                    identifier,
                ) {
                    None => self.pushed(prepare_fail(address, None)),
                    Some(target) => match read.sdu {
                        // No forward registration.
                        None => self.pushed(new_cell(address, 1, None, None)),
                        Some((sdu, update)) => if pdu_type(sdu) == Some(
                            U_LOCATION_UPDATE_DEMAND as nat,
                        ) && update == Some(
                            LocationUpdateType::ServiceRestorationRoamingLocationUpdating,
                        ) {
                            MleRun {
                                preparing: crate::table::put(
                                    self.preparing,
                                    address.ssi,
                                    self.now.plus(T370_TIMESLOTS as int),
                                ),
                                ..self
                            }.pushed(
                                MleMessageView::ToMm {
                                    sdu: BitsView { bits: sdu.bits, pos: 0 },
                                    address,
                                    target: Some(target),
                                },
                            )
                        } else {
                            self.pushed(prepare_fail(address, None))
                        },
                    },
                },
            },
        }
    }

    /// U-RESTORE.
    pub open spec fn restore(self, head: UplinkHead, sdu: Option<BitsView>) -> MleRun {
        match sdu {
            None => self.pushed(restore_fail(head.address)),
            Some(embedded) => MleRun {
                restoring: crate::table::put(self.restoring, head.address.ssi, true),
                ..self
            }.pushed(
                MleMessageView::ToCmce { sdu: BitsView { bits: embedded.bits, pos: 0 }, head },
            ),
        }
    }

    /// A PDU from the link layer.
    pub open spec fn uplink(self, head: UplinkHead, sdu: BitsView) -> MleRun {
        if sdu.pos + 3 > sdu.bits.len() {
            self
        } else {
            let code = crate::bitbuffer::number(sdu.bits.subrange(sdu.pos, sdu.pos + 3));
            let rest = BitsView { bits: sdu.bits, pos: sdu.pos + 3 };
            if code == MleProtocolDiscriminator::Mm.into_raw() {
                self.pushed(MleMessageView::ToMm { sdu: rest, address: head.address, target: None })
            } else if code == MleProtocolDiscriminator::Cmce.into_raw() {
                self.pushed(MleMessageView::ToCmce { sdu: rest, head })
            } else if code == MleProtocolDiscriminator::Sndcp.into_raw() {
                self.pushed(MleMessageView::ToSndcp { sdu: rest, head })
            } else if code == MleProtocolDiscriminator::Mle.into_raw() {
                self.pushed(MleMessageView::ToMle { sdu: rest, head })
            } else {
                self
            }
        }
    }

    /// A PDU from mobility management. The answer to a prepared change of cells
    /// goes to the terminal inside one of this entity's own PDUs.
    pub open spec fn from_mm(
        self,
        address: TetraAddress,
        sdu: BitsView,
        seamless: Option<SeamlessHandover>,
        receipt: Option<u64>,
    ) -> MleRun {
        let answered = MleRun {
            preparing: crate::table::del(self.preparing, address.ssi),
            ..self
        };
        if crate::table::contains(self.preparing, address.ssi) && pdu_type(sdu) == Some(
            D_LOCATION_UPDATE_ACCEPT as nat,
        ) {
            answered.pushed(
                new_cell(
                    address,
                    if seamless is Some {
                        0
                    } else {
                        1
                    },
                    Some(sdu.bits),
                    match seamless {
                        Some(handover) => Some(seamless_handover_allocation(handover)),
                        None => None,
                    },
                ),
            )
        } else if crate::table::contains(self.preparing, address.ssi) && pdu_type(sdu) == Some(
            D_LOCATION_UPDATE_REJECT as nat,
        ) {
            answered.pushed(prepare_fail(address, Some(sdu.bits)))
        } else {
            self.pushed(
                MleMessageView::Link {
                    head: LinkHead {
                        layer2service: Layer2Service::Acknowledged,
                        main_address: address,
                        link_id: 0,
                        endpoint_id: 0,
                        stealing_permission: false,
                        chan_alloc: None,
                        associated_channel: None,
                        receipt,
                    },
                    sdu: framed(MleProtocolDiscriminator::Mm, sdu.bits),
                },
            )
        }
    }

    /// A PDU from circuit mode control. The answer to a restoration goes to the
    /// terminal inside one of this entity's own PDUs; an empty one is a failure.
    pub open spec fn from_cmce(self, head: LinkHead, sdu: BitsView) -> MleRun {
        if crate::table::contains(self.restoring, head.main_address.ssi) {
            let answered = MleRun {
                restoring: crate::table::del(self.restoring, head.main_address.ssi),
                ..self
            };
            if sdu.bits.len() == 0 {
                answered.pushed(restore_fail(head.main_address))
            } else {
                answered.pushed(
                    MleMessageView::Downlink {
                        address: head.main_address,
                        pdu: MlePduView::DRestoreAck { sdu: sdu.bits },
                        chan_alloc: head.chan_alloc,
                    },
                )
            }
        } else {
            self.pushed(
                MleMessageView::Link {
                    head,
                    sdu: framed(MleProtocolDiscriminator::Cmce, sdu.bits),
                },
            )
        }
    }

    /// New settings of the broadcast.
    pub open spec fn settings(
        self,
        handle: u32,
        neighbours: Seq<String>,
        broadcast: CfgNetworkBroadcast,
    ) -> MleRun {
        match crate::mle::broadcast::settings_fault(
            neighbours,
            broadcast,
            crate::mle::broadcast::some_blank(neighbours),
            crate::mle::broadcast::zone_known(broadcast),
        ) {
            None => {
                let advertised = crate::mle::broadcast::updated(
                    self.advertised,
                    neighbours,
                    broadcast,
                );
                MleRun { advertised, ..self }.pushed(
                    MleMessageView::SettingsAnswer {
                        handle,
                        version: advertised.version,
                        error: None,
                    },
                )
            },
            Some(text) => self.pushed(
                MleMessageView::SettingsAnswer {
                    handle,
                    version: self.advertised.version,
                    error: Some(text),
                },
            ),
        }
    }

    /// With changes of cells ended whose time ran out.
    pub open spec fn clocked(self, ts: TdmaTime) -> MleRun {
        MleRun {
            now: ts,
            preparing: still_waiting(self.preparing, ts),
            queue: self.queue + timeouts(self.preparing, ts),
            ..self
        }
    }

    /// With the directories of snapshots.
    pub open spec fn informed(self, snapshots: Seq<(u64, Seq<NeighbourView>)>) -> MleRun
        decreases snapshots.len(),
    {
        if snapshots.len() == 0 {
            self
        } else {
            let before = self.informed(snapshots.drop_last());
            MleRun {
                carousel: before.carousel.replaced(snapshots.last().0, snapshots.last().1),
                ..before
            }
        }
    }

    /// With all new settings.
    pub open spec fn all_settings(self, updates: Seq<SettingsUpdate>) -> MleRun
        decreases updates.len(),
    {
        if updates.len() == 0 {
            self
        } else {
            let last = updates.last();
            self.all_settings(updates.drop_last()).settings(
                last.handle,
                last.neighbour_ids@,
                last.broadcast,
            )
        }
    }

    /// With the broadcast, if it is due in the slot after this one.
    pub open spec fn broadcast(self, local_time: Option<u64>) -> MleRun {
        let slot = self.now.plus(MLE_BROADCAST_TX_AHEAD_TIMESLOTS as int);
        if broadcast_due(slot, self.next_broadcast) {
            MleRun {
                carousel: self.carousel.advanced(),
                next_broadcast: Some(slot.plus(MLE_BROADCAST_INTERVAL_TIMESLOTS as int)),
                ..self
            }.pushed(
                MleMessageView::Broadcast(
                    crate::mle::broadcast::broadcast_pdu(
                        self.carousel,
                        self.advertised,
                        local_time,
                    ),
                ),
            )
        } else {
            self
        }
    }
}

/// The model of the snapshots.
pub open spec fn snapshot_views(snapshots: Seq<NeighbourCellSnapshot>) -> Seq<
    (u64, Seq<NeighbourView>),
> {
    snapshots.map_values(
        |snapshot: NeighbourCellSnapshot|
            (
                snapshot.directory_version,
                crate::mle::broadcast::neighbour_views(snapshot.neighbours@),
            ),
    )
}

/// What this entity sees and reaches.
pub struct MlePort {
    pub queue: Vec<MleMessage>,
    pub advertised: RuntimeNetworkBroadcast,
}

impl MlePort {
    fn push(&mut self, message: MleMessage)
        ensures
            final(self).advertised == old(self).advertised,
            mle_messages(final(self).queue@) == mle_messages(old(self).queue@).push(message@),
    {
        let ghost before = self.queue@;
        self.queue.push(message);
        assert(mle_messages(self.queue@) =~= mle_messages(before).push(message@));
    }
}

/// The mobile link entity.
pub struct MleBs {
    broadcast: MleBroadcast,
    preparing: Table<u32, TdmaTime>,
    restoring: Table<u32, bool>,
    current_time: TdmaTime,
    next_network_broadcast: Option<TdmaTime>,
}

impl MleBs {
    /// The carousel of the broadcast.
    pub closed spec fn carousel(&self) -> CarouselView {
        self.broadcast@
    }

    /// The terminals that prepare a change of cells.
    pub closed spec fn preparing_view(&self) -> Seq<(u32, TdmaTime)> {
        self.preparing@
    }

    /// The terminals that restore a call.
    pub closed spec fn restoring_view(&self) -> Seq<(u32, bool)> {
        self.restoring@
    }

    /// The current slot.
    pub closed spec fn now(&self) -> TdmaTime {
        self.current_time
    }

    /// The slot from which on the next broadcast is due.
    pub closed spec fn next_broadcast(&self) -> Option<TdmaTime> {
        self.next_network_broadcast
    }

    /// The state with what surrounds it.
    pub open spec fn run(&self, port: MlePort) -> MleRun {
        MleRun {
            carousel: self.carousel(),
            advertised: port.advertised@,
            preparing: self.preparing_view(),
            restoring: self.restoring_view(),
            now: self.now(),
            next_broadcast: self.next_broadcast(),
            queue: mle_messages(port.queue@),
        }
    }

    /// The carousel stands at a batch that there is.
    pub open spec fn wf(&self) -> bool {
        self.carousel().wf()
    }

    /// Nothing is known, and no broadcast was sent.
    pub fn new() -> (mle: Self)
        ensures
            mle.wf(),
            mle.carousel() == (CarouselView {
                snapshot_version: 0,
                neighbours: Seq::empty(),
                next_batch: 0,
            }),
            mle.preparing_view() == Seq::<(u32, TdmaTime)>::empty(),
            mle.restoring_view() == Seq::<(u32, bool)>::empty(),
            mle.now() == (TdmaTime { h: 0, m: 1, f: 1, t: 1 }),
            mle.next_broadcast() is None,
    {
        MleBs {
            broadcast: MleBroadcast::new(),
            preparing: Table::new(),
            restoring: Table::new(),
            current_time: TdmaTime { h: 0, m: 1, f: 1, t: 1 },
            next_network_broadcast: None,
        }
    }

    fn send_prepare_fail(&self, port: &mut MlePort, address: TetraAddress, sdu: Option<Vec<bool>>)
        ensures
            final(port).advertised == old(port).advertised,
            self.run(*final(port)) == self.run(*old(port)).pushed(
                prepare_fail(address, sdu_view(sdu)),
            ),
    {
        port.push(
            MleMessage::Downlink {
                address,
                pdu: MlePdu::DPrepareFail { fail_cause: 1, sdu },
                chan_alloc: None,
            },
        );
    }

    fn send_restore_fail(&self, port: &mut MlePort, address: TetraAddress)
        ensures
            final(port).advertised == old(port).advertised,
            self.run(*final(port)) == self.run(*old(port)).pushed(restore_fail(address)),
    {
        port.push(
            MleMessage::Downlink {
                address,
                pdu: MlePdu::DRestoreFail { fail_cause: 1 },
                chan_alloc: None,
            },
        );
    }

    fn send_new_cell(
        &self,
        port: &mut MlePort,
        address: TetraAddress,
        channel_command_valid: u8,
        sdu: Option<Vec<bool>>,
        chan_alloc: Option<CmceChanAllocReq>,
    )
        ensures
            final(port).advertised == old(port).advertised,
            self.run(*final(port)) == self.run(*old(port)).pushed(
                new_cell(address, channel_command_valid, sdu_view(sdu), chan_alloc),
            ),
    {
        port.push(
            MleMessage::Downlink {
                address,
                pdu: MlePdu::DNewCell { channel_command_valid, sdu },
                chan_alloc,
            },
        );
    }

    fn rx_u_prepare(&mut self, port: &mut MlePort, address: TetraAddress, pdu: Option<UPrepare>)
        requires
            old(self).wf(),
        ensures
            final(self).wf(),
            final(self).run(*final(port)) == old(self).run(*old(port)).prepare(
                address,
                match pdu {
                    Some(read) => Some(read@),
                    None => None,
                },
            ),
    {
        let read: UPrepare = match pdu {
            Some(read) => read,
            None => {
                self.send_prepare_fail(port, address, None);
                return;
            },
        };
        let identifier: u8 = match read.cell_identifier_ca {
            Some(identifier) => identifier,
            None => {
                self.send_new_cell(port, address, 1, None, None);
                return;
            },
        };
        let target: String = match self.broadcast.neighbour_station_id(identifier) {
            Some(id) => id.to_string(),
            None => {
                self.send_prepare_fail(port, address, None);
                return;
            },
        };
        let embedded: EmbeddedMm = match read.sdu {
            Some(embedded) => embedded,
            None => {
                self.send_new_cell(port, address, 1, None, None);
                return;
            },
        };
        let is_demand: bool = match embedded.sdu.peek_bits(4) {
            Some(code) => code == U_LOCATION_UPDATE_DEMAND,
            None => false,
        };
        let restores: bool = match embedded.location_update_type {
            Some(update) => update
                == LocationUpdateType::ServiceRestorationRoamingLocationUpdating,
            None => false,
        };
        if !is_demand || !restores {
            self.send_prepare_fail(port, address, None);
            return;
        }
        let mut sdu: BitBuffer = embedded.sdu;
        sdu.seek(0);
        self.preparing.insert(address.ssi, self.current_time.add_timeslots(T370_TIMESLOTS));
        port.push(MleMessage::ToMm { sdu, address, target: Some(target) });
    }

    fn rx_u_restore(&mut self, port: &mut MlePort, head: UplinkHead, sdu: Option<BitBuffer>)
        requires
            old(self).wf(),
        ensures
            final(self).wf(),
            final(self).run(*final(port)) == old(self).run(*old(port)).restore(
                head,
                match sdu {
                    Some(embedded) => Some(embedded@),
                    None => None,
                },
            ),
    {
        let mut embedded: BitBuffer = match sdu {
            Some(embedded) => embedded,
            None => {
                self.send_restore_fail(port, head.address);
                return;
            },
        };
        embedded.seek(0);
        self.restoring.insert(head.address.ssi, true);
        port.push(MleMessage::ToCmce { sdu: embedded, head });
    }

    /// A PDU for this entity, as it was read.
    pub fn rx_tla_mle_pdu(&mut self, port: &mut MlePort, head: UplinkHead, pdu: MleUplinkPdu)
        requires
            old(self).wf(),
        ensures
            final(self).wf(),
            final(self).run(*final(port)) == match pdu {
                MleUplinkPdu::UPrepare(read) => old(self).run(*old(port)).prepare(
                    head.address,
                    match read {
                        Some(prepare) => Some(prepare@),
                        None => None,
                    },
                ),
                MleUplinkPdu::URestore(sdu) => old(self).run(*old(port)).restore(
                    head,
                    match sdu {
                        Some(embedded) => Some(embedded@),
                        None => None,
                    },
                ),
                MleUplinkPdu::Other => old(self).run(*old(port)),
            },
    {
        match pdu {
            MleUplinkPdu::UPrepare(read) => self.rx_u_prepare(port, head.address, read),
            MleUplinkPdu::URestore(sdu) => self.rx_u_restore(port, head, sdu),
            MleUplinkPdu::Other => {},
        }
    }

    /// A PDU from the link layer.
    pub fn rx_tla_data_ind_bl(&mut self, port: &mut MlePort, head: UplinkHead, sdu: BitBuffer)
        requires
            old(self).wf(),
            sdu@.pos == 0,
        ensures
            final(self).wf(),
            final(self).run(*final(port)) == old(self).run(*old(port)).uplink(head, sdu@),
    {
        let mut sdu: BitBuffer = sdu;
        let code: u64 = match sdu.read_bits(3) {
            Some(code) => code,
            None => return,
        };
        match MleProtocolDiscriminator::from_raw(code) {
            None => {},
            Some(MleProtocolDiscriminator::Mm) => port.push(
                MleMessage::ToMm { sdu, address: head.address, target: None },
            ),
            Some(MleProtocolDiscriminator::Cmce) => port.push(MleMessage::ToCmce { sdu, head }),
            Some(MleProtocolDiscriminator::Sndcp) => port.push(MleMessage::ToSndcp { sdu, head }),
            Some(MleProtocolDiscriminator::Mle) => port.push(MleMessage::ToMle { sdu, head }),
            Some(MleProtocolDiscriminator::TetraManagementEntity) => {},
        }
    }

    /// A PDU from mobility management, acknowledged.
    pub fn rx_lmm_mle_unitdata_req(
        &mut self,
        port: &mut MlePort,
        address: TetraAddress,
        sdu: &BitBuffer,
        seamless_handover: Option<SeamlessHandover>,
        receipt: Option<u64>,
    )
        requires
            old(self).wf(),
            sdu@.pos == 0,
            sdu@.bits.len() + 3 <= usize::MAX,
        ensures
            final(self).wf(),
            final(self).run(*final(port)) == old(self).run(*old(port)).from_mm(
                address,
                sdu@,
                seamless_handover,
                receipt,
            ),
    {
        if self.preparing.contains_key(address.ssi) {
            let code: Option<u64> = sdu.peek_bits(4);
            if let Some(raw) = code {
                if raw == D_LOCATION_UPDATE_ACCEPT {
                    self.preparing.remove(address.ssi);
                    let chan_alloc: Option<CmceChanAllocReq> = match seamless_handover {
                        Some(handover) => Some(seamless_handover_allocation(handover)),
                        None => None,
                    };
                    let command: u8 = if chan_alloc.is_some() {
                        0
                    } else {
                        1
                    };
                    let bits: Vec<bool> = sdu.to_bits();
                    self.send_new_cell(port, address, command, Some(bits), chan_alloc);
                    return;
                }
                if raw == D_LOCATION_UPDATE_REJECT {
                    self.preparing.remove(address.ssi);
                    let bits: Vec<bool> = sdu.to_bits();
                    self.send_prepare_fail(port, address, Some(bits));
                    return;
                }
            }
        }
        let bits: Vec<bool> = frame(MleProtocolDiscriminator::Mm, sdu);
        port.push(
            MleMessage::Link {
                head: LinkHead {
                    layer2service: Layer2Service::Acknowledged,
                    main_address: address,
                    link_id: 0,
                    endpoint_id: 0,
                    stealing_permission: false,
                    chan_alloc: None,
                    associated_channel: None,
                    receipt,
                },
                sdu: bits,
            },
        );
    }

    /// A PDU from circuit mode control.
    pub fn rx_lcmc_mle_unitdata_req(&mut self, port: &mut MlePort, head: LinkHead, sdu: &BitBuffer)
        requires
            old(self).wf(),
            sdu@.pos == 0,
            sdu@.bits.len() + 3 <= usize::MAX,
        ensures
            final(self).wf(),
            final(self).run(*final(port)) == old(self).run(*old(port)).from_cmce(head, sdu@),
    {
        if self.restoring.contains_key(head.main_address.ssi) {
            self.restoring.remove(head.main_address.ssi);
            if sdu.get_len_remaining() == 0 {
                self.send_restore_fail(port, head.main_address);
            } else {
                let bits: Vec<bool> = sdu.to_bits();
                port.push(
                    MleMessage::Downlink {
                        address: head.main_address,
                        pdu: MlePdu::DRestoreAck { sdu: bits },
                        chan_alloc: head.chan_alloc,
                    },
                );
            }
            return;
        }
        let bits: Vec<bool> = frame(MleProtocolDiscriminator::Cmce, sdu);
        port.push(MleMessage::Link { head, sdu: bits });
    }

    fn end_overdue(&mut self, port: &mut MlePort, ts: TdmaTime)
        requires
            old(self).wf(),
        ensures
            final(self).wf(),
            final(self).run(*final(port)) == old(self).run(*old(port)).clocked(ts),
    {
        let ghost before = self.run(*port);
        self.current_time = ts;
        let mut kept: Vec<(u32, TdmaTime)> = Vec::new();
        let mut i: usize = 0;
        assert(before.queue =~= before.queue + timeouts(before.preparing.take(0), ts));
        while i < self.preparing.len()
            invariant
                i <= self.preparing@.len(),
                self.wf(),
                self.preparing@ == before.preparing,
                kept@ == still_waiting(before.preparing.take(i as int), ts),
                self.run(*port) == (MleRun {
                    now: ts,
                    queue: before.queue + timeouts(before.preparing.take(i as int), ts),
                    ..before
                }),
            decreases self.preparing@.len() - i,
        {
            let (issi, deadline) = self.preparing.entry(i);
            proof {
                let next = before.preparing.take(i + 1);
                assert(next.drop_last() =~= before.preparing.take(i as int));
                assert(next.last() == before.preparing[i as int]);
            }
            if ts.age(deadline) >= 0 {
                self.send_prepare_fail(port, TetraAddress::issi(issi), None);
                assert(self.run(*port).queue =~= before.queue + timeouts(
                    before.preparing.take(i + 1),
                    ts,
                ));
            } else {
                kept.push((issi, deadline));
            }
            i = i + 1;
        }
        assert(before.preparing.take(before.preparing.len() as int) =~= before.preparing);
        self.preparing = Table::from_entries(kept);
    }

    fn take_snapshots(&mut self, port: &MlePort, snapshots: Vec<NeighbourCellSnapshot>)
        requires
            old(self).wf(),
        ensures
            final(self).wf(),
            final(self).run(*port) == old(self).run(*port).informed(snapshot_views(snapshots@)),
        decreases snapshots@.len(),
    {
        let mut snapshots: Vec<NeighbourCellSnapshot> = snapshots;
        let ghost views = snapshot_views(snapshots@);
        match snapshots.pop() {
            None => {
                assert(views.len() == 0);
            },
            Some(last) => {
                assert(snapshot_views(snapshots@) =~= views.drop_last());
                self.take_snapshots(port, snapshots);
                self.broadcast.replace_neighbours(last);
            },
        }
    }

    fn take_settings(&mut self, port: &mut MlePort, updates: Vec<SettingsUpdate>)
        requires
            old(self).wf(),
        ensures
            final(self).wf(),
            final(self).run(*final(port)) == old(self).run(*old(port)).all_settings(updates@),
        decreases updates@.len(),
    {
        let mut updates: Vec<SettingsUpdate> = updates;
        let ghost all = updates@;
        match updates.pop() {
            None => {},
            Some(last) => {
                assert(updates@ =~= all.drop_last());
                self.take_settings(port, updates);
                let handle: u32 = last.handle;
                match self.broadcast.apply_runtime_update(
                    &mut port.advertised,
                    last.neighbour_ids,
                    last.broadcast,
                ) {
                    Ok(version) => port.push(
                        MleMessage::SettingsAnswer { handle, version, error: None },
                    ),
                    Err(text) => {
                        let version: u64 = port.advertised.version;
                        port.push(
                            MleMessage::SettingsAnswer { handle, version, error: Some(text) },
                        )
                    },
                }
            },
        }
    }

    /// One slot passes: changes of cells whose time ran out fail, and what came
    /// in is taken. `offer_broadcast` follows, with the time that the settings
    /// taken here ask for.
    pub fn tick_start(
        &mut self,
        port: &mut MlePort,
        ts: TdmaTime,
        snapshots: Vec<NeighbourCellSnapshot>,
        updates: Vec<SettingsUpdate>,
    )
        requires
            old(self).wf(),
        ensures
            final(self).wf(),
            final(self).run(*final(port)) == old(self).run(*old(port)).clocked(ts).informed(
                snapshot_views(snapshots@),
            ).all_settings(updates@),
            final(self).run(*final(port)).now == ts,
    {
        self.end_overdue(port, ts);
        self.take_snapshots(port, snapshots);
        self.take_settings(port, updates);
        proof {
            lemma_informed_keeps_time(
                old(self).run(*old(port)).clocked(ts),
                snapshot_views(snapshots@),
            );
            lemma_settings_keep_time(
                old(self).run(*old(port)).clocked(ts).informed(snapshot_views(snapshots@)),
                updates@,
            );
        }
    }

    /// Offers the broadcast when it is due. `local_time` is the network time of
    /// the station's time zone, where it can be told; it is taken after the
    /// slot's settings have been.
    pub fn offer_broadcast(&mut self, port: &mut MlePort, local_time: Option<u64>)
        requires
            old(self).wf(),
        ensures
            final(self).wf(),
            final(self).run(*final(port)) == old(self).run(*old(port)).broadcast(local_time),
    {
        let transmission_time: TdmaTime = self.current_time.add_timeslots(MLE_BROADCAST_TX_AHEAD_TIMESLOTS);
        if network_broadcast_due(transmission_time, self.next_network_broadcast) {
            let pdu: DNwrkBroadcast = self.broadcast.send_broadcast(&port.advertised, local_time);
            self.next_network_broadcast = Some(
                transmission_time.add_timeslots(MLE_BROADCAST_INTERVAL_TIMESLOTS),
            );
            port.push(MleMessage::Broadcast(pdu));
        }
    }
}

proof fn lemma_informed_keeps_time(run: MleRun, snapshots: Seq<(u64, Seq<NeighbourView>)>)
    ensures
        run.informed(snapshots).now == run.now,
    decreases snapshots.len(),
{
    if snapshots.len() > 0 {
        lemma_informed_keeps_time(run, snapshots.drop_last());
    }
}

proof fn lemma_settings_keep_time(run: MleRun, updates: Seq<SettingsUpdate>)
    ensures
        run.all_settings(updates).now == run.now,
    decreases updates.len(),
{
    if updates.len() > 0 {
        lemma_settings_keep_time(run, updates.drop_last());
    }
}

proof fn lemma_frames_keep_the_timeslot(time: TdmaTime, frames: int)
    requires
        time.wf(),
    ensures
        time.plus(4 * frames).t == time.t,
{
    let cycle = crate::tdma::SLOTS_PER_CYCLE as int;
    let slot = time.slots();
    let whole = (time.h * 60 + (time.m - 1)) * 18 + (time.f - 1);
    assert(slot == 4 * whole + (time.t - 1));
    let later = (slot + 4 * frames) % cycle;
    assert(later % 4 == (slot + 4 * frames) % 4) by {
        assert(cycle == 4 * 70_778_880);
        vstd::arithmetic::div_mod::lemma_mod_mod(slot + 4 * frames, 4, 70_778_880);
    }
    assert((4 * (whole + frames) + (time.t - 1)) % 4 == time.t - 1);
}

/// After a broadcast no other is due before its interval has passed, and then
/// one is: broadcasts come on timeslot 1, five multiframes apart.
pub proof fn law_broadcasts_are_five_multiframes_apart(sent: TdmaTime, k: int)
    requires
        sent.wf(),
        sent.t == 1,
        0 < k <= MLE_BROADCAST_INTERVAL_TIMESLOTS,
    ensures
        broadcast_due(
            sent.plus(k),
            Some(sent.plus(MLE_BROADCAST_INTERVAL_TIMESLOTS as int)),
        ) == (k == MLE_BROADCAST_INTERVAL_TIMESLOTS),
{
    crate::tdma::law_steps_add_up(sent, 360, k - 360);
    crate::tdma::law_age_of_a_step(sent.plus(360), k - 360);
    lemma_frames_keep_the_timeslot(sent, 90);
}

/// The answer to a prepared change of cells ends it: a second answer is an
/// ordinary PDU.
pub proof fn law_preparation_is_answered_once(
    run: MleRun,
    address: TetraAddress,
    sdu: BitsView,
    seamless: Option<SeamlessHandover>,
    receipt: Option<u64>,
)
    requires
        pdu_type(sdu) == Some(D_LOCATION_UPDATE_ACCEPT as nat) || pdu_type(sdu) == Some(
            D_LOCATION_UPDATE_REJECT as nat,
        ),
    ensures
        run.from_mm(address, sdu, seamless, receipt).from_mm(
            address,
            sdu,
            seamless,
            receipt,
        ).queue.last() is Link,
{
    crate::table::law_lookup_after_del(run.preparing, address.ssi, address.ssi);
    crate::table::lemma_contains(run.preparing, address.ssi);
    crate::table::lemma_contains(
        crate::table::del(run.preparing, address.ssi),
        address.ssi,
    );
}

/// What is handed to the link layer is read back: the receiver of the bits finds
/// the entity and the PDU that were sent.
pub proof fn law_frame_is_read_back(entity: MleProtocolDiscriminator, sdu: Seq<bool>)
    ensures
        crate::bitbuffer::number(framed(entity, sdu).take(3)) == entity.into_raw(),
        framed(entity, sdu).skip(3) == sdu,
{
    vstd::arithmetic::power2::lemma2_to64();
    crate::bitbuffer::law_number_is_read_back(entity.into_raw() as nat, 3);
    assert(framed(entity, sdu).take(3) =~= crate::bitbuffer::digits(
        entity.into_raw() as nat,
        3,
    ));
    assert(framed(entity, sdu).skip(3) =~= sdu);
}

/// A prepared change of cells whose time ran out fails: the terminal is told, and
/// nothing overdue waits any longer.
pub proof fn law_overdue_preparation_fails(run: MleRun, ts: TdmaTime, i: int)
    requires
        0 <= i < run.preparing.len(),
        ts.since(run.preparing[i].1) >= 0,
    ensures
        run.clocked(ts).queue.contains(
            prepare_fail(TetraAddress::issi(run.preparing[i].0), None),
        ),
        forall|j: int|
            0 <= j < run.clocked(ts).preparing.len() ==> ts.since(
                (#[trigger] run.clocked(ts).preparing[j]).1,
            ) < 0,
{
    lemma_timeouts(run.preparing, ts, i);
    lemma_still_waiting(run.preparing, ts);
    let told = prepare_fail(TetraAddress::issi(run.preparing[i].0), None);
    let sent = timeouts(run.preparing, ts);
    let k = choose|k: int| 0 <= k < sent.len() && sent[k] == told;
    assert(run.clocked(ts).queue[run.queue.len() + k] == told);
}

proof fn lemma_timeouts(entries: Seq<(u32, TdmaTime)>, now: TdmaTime, i: int)
    requires
        0 <= i < entries.len(),
        now.since(entries[i].1) >= 0,
    ensures
        timeouts(entries, now).contains(prepare_fail(TetraAddress::issi(entries[i].0), None)),
    decreases entries.len(),
{
    let rest = entries.drop_last();
    let told = prepare_fail(TetraAddress::issi(entries[i].0), None);
    let all = timeouts(entries, now);
    if i < rest.len() {
        assert(rest[i] == entries[i]);
        lemma_timeouts(rest, now, i);
        let before = timeouts(rest, now);
        let k = choose|k: int| 0 <= k < before.len() && before[k] == told;
        assert(all[k] == told);
    } else {
        assert(all[all.len() - 1] == told);
    }
}

proof fn lemma_still_waiting(entries: Seq<(u32, TdmaTime)>, now: TdmaTime)
    ensures
        forall|j: int|
            0 <= j < still_waiting(entries, now).len() ==> now.since(
                (#[trigger] still_waiting(entries, now)[j]).1,
            ) < 0,
    decreases entries.len(),
{
    if entries.len() > 0 {
        let rest = still_waiting(entries.drop_last(), now);
        let all = still_waiting(entries, now);
        lemma_still_waiting(entries.drop_last(), now);
        assert forall|j: int| 0 <= j < all.len() implies now.since((#[trigger] all[j]).1) < 0 by {
            if j < rest.len() {
                assert(all[j] == rest[j]);
            } else {
                assert(all[j] == entries.last());
            }
        }
    }
}

} // verus!
