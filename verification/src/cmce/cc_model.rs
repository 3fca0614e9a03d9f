//! What call control does, as functions on its state.
//!
//! A `CcRun` is the state of call control together with what it can see and
//! reach: the messages that it has handed on, the timeslots of the carrier and
//! the connection to the central SwMI. Each function below takes a run and gives
//! the run after one procedure; `CcBsSubentity` executes them.
use crate::cmce::circuit::{CircuitView, TimeslotAllocator, TimeslotOwner};
use crate::cmce::pdu::{
    AssociatedChannel, BasicServiceInformation, CallControl, CallMessage, CallParty, CallTimeout,
    CallTimeoutSetupPhase, CcMessage, ChanAllocReq, CircuitModeType, CmceCircuit, CommunicationType,
    DConnect, DSetup, DisconnectCause, DownlinkPdu, Layer2Service, Membership, SetupRequest,
    SwmiLink, TetraAddress, TetraEntity, TransmissionGrant, USetup, UnitdataReq, UplinkPrim,
};
use crate::tdma::TdmaTime;
use vstd::prelude::*;

verus! {

/// Late entry is announced by broadcast.
pub const NOTIFICATION_LE_BROADCAST: u64 = 0;

/// Late entry is to be acknowledged.
pub const NOTIFICATION_LE_ACKNOWLEDGEMENT: u64 = 1;

/// How long a floor grant waits for the interruption of the speaker before it:
/// six frames.
pub const PREEMPTION_GUARD_TIMESLOTS: i32 = 24;

/// How long the central SwMI has to decide on the floor of a private call
/// before the terminal is told that its request is queued: one multiframe.
pub const PRIVATE_FLOOR_RESPONSE_GRACE_TIMESLOTS: i32 = 72;

/// How long after a restoration the speaker is named: one multiframe.
pub const RESTORE_FLOOR_INDICATION_DELAY_TIMESLOTS: i32 = 72;

/// How long a call without a speaker is kept: five multiframes.
pub const HANGTIME_TIMESLOTS: i32 = 360;

/// How long a circuit outlives its release, so that the release is transmitted:
/// one multiframe.
pub const CLOSE_AFTER_SEND_TIMESLOTS: i32 = 72;

/// Where a group call came from.
#[derive(Debug, Clone, Copy, PartialEq, Eq, Structural)]
pub enum CallOrigin {
    /// A terminal of this cell.
    Local { caller: TetraAddress },
    /// The network behind Brew.
    Network { brew_uuid: u128 },
    /// The central SwMI, which gave the call its identifier.
    Swmi,
}

/// A group call.
#[derive(Debug, Clone, Copy, PartialEq, Eq, Structural)]
pub struct ActiveCall {
    pub origin: CallOrigin,
    pub dest_gssi: u32,
    /// The current or last speaker.
    pub source_issi: u32,
    pub ts: u8,
    pub usage: u8,
    pub priority: u8,
    /// Late entry is acknowledged.
    pub acknowledged: bool,
    /// Someone is transmitting.
    pub tx_active: bool,
    /// Since when nobody is transmitting.
    pub hangtime_start: Option<TdmaTime>,
    /// The Brew session of a network speaker.
    pub brew_uuid: Option<u128>,
}

/// A released group call whose circuit is still open.
#[derive(Debug, Clone, Copy, PartialEq, Eq, Structural)]
pub struct ReleasingCall {
    pub call_id: u16,
    pub ts: u8,
    pub dest_gssi: u32,
    pub is_local: bool,
    pub brew_uuid: Option<u128>,
    pub sent_at: TdmaTime,
}

/// A released circuit of a private call that is still open.
#[derive(Debug, Clone, Copy, PartialEq, Eq, Structural)]
pub struct ReleasingPrivateCircuit {
    pub call_id: u16,
    pub itsi: u32,
    pub circuit: CmceCircuit,
    pub sent_at: TdmaTime,
}

/// A private call with at least one party in this cell.
#[derive(Debug, Clone, Copy, PartialEq, Eq, Structural)]
pub struct PrivateCallLocal {
    pub caller_itsi: u32,
    pub callee_itsi: u32,
    pub hook: bool,
    pub duplex: bool,
    pub request_to_transmit: bool,
    pub priority: u8,
    /// Who has the floor; zero where nobody has it.
    pub floor_itsi: u32,
    pub connected: bool,
    /// Which parties are in this cell: 1 the caller, 2 the called party.
    pub local_mask: u8,
}

/// What a terminal listens to.
#[derive(Debug, Clone, Copy, PartialEq, Eq, Structural)]
pub enum ListeningService {
    Group { gssi: u32 },
    Private { peer_issi: u32 },
}

/// A channel that a terminal listens to, or is likely to.
#[derive(Debug, Clone, Copy, PartialEq, Eq, Structural)]
pub struct ListeningCandidate {
    pub call_id: u16,
    pub timeslot: u8,
    pub usage: u8,
    pub service: ListeningService,
    pub last_seen: TdmaTime,
    pub confirmed: bool,
}

/// The last channels of a terminal, the latest first.
#[derive(Debug, Clone, Copy, PartialEq, Eq, Structural)]
pub struct Candidates {
    pub first: Option<ListeningCandidate>,
    pub second: Option<ListeningCandidate>,
    pub third: Option<ListeningCandidate>,
}

/// The D-SETUP of a group call, kept for late entry.
#[derive(Debug, Clone, Copy, PartialEq, Eq, Structural)]
pub struct CachedSetup {
    pub setup: DSetup,
    pub dest: TetraAddress,
    pub receipt: Option<u64>,
}

/// What the central SwMI decided on a U-SETUP.
#[derive(Debug, Clone, Copy, PartialEq, Eq, Structural)]
pub struct CentralSetup {
    pub call_id: u16,
    pub floor_itsi: u32,
    pub priority: u8,
}

/// A central group call.
#[derive(Debug, Clone, Copy, PartialEq, Eq, Structural)]
pub struct RemoteCall {
    pub owner_itsi: u32,
    pub gssi: u32,
    pub priority: u8,
    pub floor_itsi: u32,
    pub acknowledged: bool,
}

/// A floor holder to be announced at `due`.
#[derive(Debug, Clone, Copy, PartialEq, Eq, Structural)]
pub struct FloorTimer {
    pub itsi: u32,
    pub due: TdmaTime,
}

/// What the mobility management tells of a subscriber.
#[derive(Debug, Clone, Copy, PartialEq, Eq, Structural)]
pub enum SubscriberAction {
    Register,
    Deregister,
    Affiliate,
    Deaffiliate,
    ScanningState,
}

/// A periodic task of the circuit manager.
#[derive(Debug, Clone, Copy, PartialEq, Eq, Structural)]
pub enum CircuitMgrCmd {
    SendDSetup { call_id: u16, usage: u8, ts: u8 },
    SendClose { call_id: u16, circuit: CmceCircuit },
}

/// The state of call control.
#[verifier::ext_equal]
pub struct CcView {
    pub dltime: TdmaTime,
    pub cached_setups: Seq<(u16, CachedSetup)>,
    pub restore_prepared: Seq<(u16, bool)>,
    pub circuits: CircuitView,
    pub active_calls: Seq<(u16, ActiveCall)>,
    pub known: Seq<(u32, bool)>,
    pub members: Seq<(Membership, bool)>,
    pub class_of_usage: Seq<(Membership, u8)>,
    pub scanning: Seq<(u32, bool)>,
    pub candidates: Seq<(u32, Candidates)>,
    pub releasing_calls: Seq<ReleasingCall>,
    pub pending_setups: Seq<(Membership, SetupRequest)>,
    pub central_setups: Seq<(Membership, CentralSetup)>,
    pub pending_remote: Seq<(u16, RemoteCall)>,
    pub pending_grants: Seq<(u16, FloorTimer)>,
    pub pending_private_floors: Seq<(CallParty, TdmaTime)>,
    pub pending_restore_floors: Seq<(CallParty, FloorTimer)>,
    pub next_command: u64,
    pub next_receipt: u64,
    pub private_calls: Seq<(u16, PrivateCallLocal)>,
    pub pending_private_setups: Seq<(u32, SetupRequest)>,
    pub private_circuits: Seq<(CallParty, CmceCircuit)>,
    pub releasing_private: Seq<ReleasingPrivateCircuit>,
}

/// Call control with what it sees and reaches.
#[verifier::ext_equal]
pub struct CcRun {
    pub st: CcView,
    pub queue: Seq<CcMessage>,
    pub slots: TimeslotAllocator,
    pub swmi: SwmiLink,
    pub brew: Seq<(u32, u32)>,
    pub carrier: u16,
}

// ---------------------------------------------------------------------------
// Messages
// ---------------------------------------------------------------------------

impl CcRun {
    /// With `message` handed on.
    pub open spec fn emit(self, message: CcMessage) -> CcRun {
        CcRun { queue: self.queue.push(message), ..self }
    }

    /// With a control message for `dest` handed on.
    pub open spec fn control(self, dest: TetraEntity, message: CallControl) -> CcRun {
        self.emit(CcMessage::Control(dest, message))
    }

    /// With a control message for two entities handed on.
    pub open spec fn control_both(
        self, first: TetraEntity,
        second: TetraEntity,
        message: CallControl,
    ) -> CcRun {
        self.control(first, message).control(second, message)
    }

    /// With a message for the central SwMI handed on.
    pub open spec fn submit(self, message: CallMessage) -> CcRun {
        self.emit(CcMessage::Swmi(message))
    }
}

/// The channel assignment of one timeslot.
pub open spec fn allocation(usage: Option<u8>, ts: u8) -> ChanAllocReq {
    ChanAllocReq { usage, timeslots: (ts == 1, ts == 2, ts == 3, ts == 4) }
}

/// A downlink PDU of call control's own.
pub open spec fn unitdata(
    pdu: DownlinkPdu,
    chan_alloc: Option<ChanAllocReq>,
    address: TetraAddress,
    layer2service: Layer2Service,
    receipt: Option<u64>,
    associated_channel: Option<AssociatedChannel>,
) -> CcMessage {
    CcMessage::Downlink(
        UnitdataReq {
            pdu,
            handle: 0,
            endpoint_id: 0,
            link_id: 0,
            layer2service,
            stealing_permission: false,
            chan_alloc,
            associated_channel,
            main_address: address,
            receipt,
        },
    )
}

/// A downlink PDU that is stolen from the traffic channel on `ts`.
pub open spec fn stolen(pdu: DownlinkPdu, address: TetraAddress, ts: u8) -> CcMessage {
    CcMessage::Downlink(
        UnitdataReq {
            pdu,
            handle: 0,
            endpoint_id: 0,
            link_id: 0,
            layer2service: Layer2Service::Unacknowledged,
            stealing_permission: true,
            chan_alloc: Some(allocation(None, ts)),
            associated_channel: None,
            main_address: address,
            receipt: None,
        },
    )
}

/// A downlink PDU that answers an uplink PDU on its link.
pub open spec fn reply(
    prim: UplinkPrim,
    pdu: DownlinkPdu,
    chan_alloc: Option<ChanAllocReq>,
    address: TetraAddress,
    layer2service: Layer2Service,
) -> CcMessage {
    CcMessage::Downlink(
        UnitdataReq {
            pdu,
            handle: prim.handle,
            endpoint_id: prim.endpoint_id,
            link_id: prim.link_id,
            layer2service,
            stealing_permission: false,
            chan_alloc,
            associated_channel: None,
            main_address: address,
            receipt: None,
        },
    )
}

impl CcRun {
    /// With D-SETUP sent to its group on the control channel.
    pub open spec fn send_setup(
        self, setup: DSetup,
        dest: TetraAddress,
        usage: u8,
        ts: u8,
        receipt: Option<u64>,
    ) -> CcRun {
        self.emit(unitdata(
                DownlinkPdu::DSetup(setup),
                Some(allocation(Some(usage), ts)),
                dest,
                Layer2Service::Unacknowledged,
                receipt,
                None,
            ))
    }

    /// With D-SETUP sent to its group on each of `channels` as well.
    pub open spec fn announce_on(
        self, setup: DSetup,
        dest: TetraAddress,
        usage: u8,
        ts: u8,
        channels: Seq<AssociatedChannel>,
    ) -> CcRun
        decreases channels.len(),
    {
        if channels.len() == 0 {
            self
        } else {
            self.announce_on(setup, dest, usage, ts, channels.drop_last()).emit(unitdata(
                    DownlinkPdu::DSetup(setup),
                    Some(allocation(Some(usage), ts)),
                    dest,
                    Layer2Service::Unacknowledged,
                    None,
                    Some(channels.last()),
                ))
        }
    }

    /// With the circuit opened at the MAC.
    pub open spec fn signal_open(self, circuit: CmceCircuit) -> CcRun {
        self.control(TetraEntity::Umac, CallControl::Open(circuit))
    }

    /// With the circuit closed at the MAC.
    pub open spec fn signal_close(self, circuit: CmceCircuit) -> CcRun {
        self.control(TetraEntity::Umac, CallControl::Close(circuit.direction, circuit.ts))
    }

    /// Who may transmit, named to one terminal on the traffic channel.
    pub open spec fn grant_to(
        self, call_id: u16,
        recipient: u32,
        speaker: u32,
        ts: u8,
        grant: TransmissionGrant,
    ) -> CcRun {
        self.emit(stolen(
                DownlinkPdu::DTxGranted {
                    call_identifier: call_id,
                    transmission_grant: grant,
                    transmission_request_permission: false,
                    transmitting_party_ssi: speaker,
                },
                TetraAddress::issi(recipient),
                ts,
            ))
    }

    /// The speaker, named to its group on the traffic channel.
    pub open spec fn grant_to_group(self, call_id: u16, speaker: u32, gssi: u32, ts: u8) -> CcRun {
        self.emit(stolen(
                DownlinkPdu::DTxGranted {
                    call_identifier: call_id,
                    transmission_grant: TransmissionGrant::GrantedToOtherUser,
                    transmission_request_permission: false,
                    transmitting_party_ssi: speaker,
                },
                TetraAddress::gssi(gssi),
                ts,
            ))
    }

    /// The speaker, named to its group beside the traffic.
    pub open spec fn grant_to_group_beside_traffic(
        self, call_id: u16,
        speaker: u32,
        gssi: u32,
        ts: u8,
        usage: u8,
    ) -> CcRun {
        self.emit(unitdata(
                DownlinkPdu::DTxGranted {
                    call_identifier: call_id,
                    transmission_grant: TransmissionGrant::GrantedToOtherUser,
                    transmission_request_permission: false,
                    transmitting_party_ssi: speaker,
                },
                None,
                TetraAddress::gssi(gssi),
                Layer2Service::Unacknowledged,
                None,
                Some(AssociatedChannel { call_id, timeslot: ts, usage }),
            ))
    }

    /// The end of a transmission, told to `address` on the traffic channel.
    pub open spec fn ceased(self, call_id: u16, address: TetraAddress, ts: u8) -> CcRun {
        self.emit(stolen(
                DownlinkPdu::DTxCeased {
                    call_identifier: call_id,
                    transmission_request_permission: false,
                },
                address,
                ts,
            ))
    }

    /// The interruption of the speaker, told to `address` on the traffic channel.
    pub open spec fn interrupt(
        self, call_id: u16,
        next_itsi: u32,
        address: TetraAddress,
        ts: u8,
    ) -> CcRun {
        self.emit(stolen(
                DownlinkPdu::DTxInterrupt {
                    call_identifier: call_id,
                    transmission_grant: TransmissionGrant::GrantedToOtherUser,
                    transmission_request_permission: false,
                    transmitting_party_ssi: next_itsi,
                },
                address,
                ts,
            ))
    }

    /// The answer to a U-SETUP that cannot be served. The call has no identifier
    /// yet, so that it is zero.
    pub open spec fn reject_setup(self, prim: UplinkPrim, cause: DisconnectCause) -> CcRun {
        self.emit(reply(
                prim,
                DownlinkPdu::DRelease { call_identifier: 0, disconnect_cause: cause },
                None,
                prim.received,
                Layer2Service::Unacknowledged,
            ))
    }

    /// The answer to a floor request that has to wait.
    pub open spec fn tx_wait(self, prim: UplinkPrim, call_id: u16) -> CcRun {
        self.emit(reply(
                prim,
                DownlinkPdu::DTxWait {
                    call_identifier: call_id,
                    transmission_request_permission: false,
                },
                None,
                prim.received,
                Layer2Service::Unacknowledged,
            ))
    }

    /// The first answer to a U-SETUP.
    pub open spec fn call_proceeding(self, prim: UplinkPrim, pdu: USetup, call_id: u16) -> CcRun {
        self.emit(reply(
                prim,
                DownlinkPdu::DCallProceeding {
                    call_identifier: call_id,
                    call_time_out_set_up_phase: if pdu.basic_service_information.communication_type
                        == CommunicationType::P2p {
                        CallTimeoutSetupPhase::T30s
                    } else {
                        CallTimeoutSetupPhase::T10s
                    },
                    hook_method_selection: pdu.hook_method_selection,
                    simplex_duplex_selection: pdu.simplex_duplex_selection,
                },
                None,
                prim.received,
                Layer2Service::Acknowledged,
            ))
    }

    /// A U-SETUP joined to the circuit of a group call.
    pub open spec fn connect_setup(
        self, request: SetupRequest,
        call_id: u16,
        ts: u8,
        usage: u8,
        grant: TransmissionGrant,
        ownership: bool,
        priority: u8,
    ) -> CcRun {
        self.call_proceeding(request.prim, request.pdu, call_id).emit(reply(
                request.prim,
                DownlinkPdu::DConnect(
                    DConnect {
                        call_identifier: call_id,
                        call_time_out: CallTimeout::T5m,
                        hook_method_selection: request.pdu.hook_method_selection,
                        simplex_duplex_selection: request.pdu.simplex_duplex_selection,
                        transmission_grant: grant,
                        transmission_request_permission: false,
                        call_ownership: ownership,
                        call_priority: Some(priority as u64),
                    },
                ),
                Some(allocation(Some(usage), ts)),
                request.prim.received,
                Layer2Service::Unacknowledged,
            ))
    }

    /// The failure of a service restoration.
    pub open spec fn restore_failure(self, itsi: u32) -> CcRun {
        self.emit(unitdata(
                DownlinkPdu::RestoreFailure,
                None,
                TetraAddress::issi(itsi),
                Layer2Service::Acknowledged,
                None,
                None,
            ))
    }
}

/// The command identifier after `id`; zero is never used.
pub open spec fn command_after(id: u64) -> u64 {
    if id == u64::MAX {
        1
    } else {
        (id + 1) as u64
    }
}

impl CcRun {
    /// With one command identifier used up.
    pub open spec fn use_command(self) -> CcRun {
        CcRun { st: CcView { next_command: command_after(self.st.next_command), ..self.st }, ..self }
    }
}

// ---------------------------------------------------------------------------
// Subscribers and what they listen to
// ---------------------------------------------------------------------------

impl CcView {
    /// Whether a terminal of this cell is a member of the group.
    pub open spec fn has_listener(self, gssi: u32) -> bool {
        exists|i: int| 0 <= i < self.members.len() && (#[trigger] self.members[i]).0.gssi == gssi
    }

    /// Whether the floor holder is a terminal of this cell and a member of the
    /// group.
    pub open spec fn floor_holder_is_local_member(self, gssi: u32, floor_itsi: u32) -> bool {
        floor_itsi != 0 && crate::table::contains(
            self.members,
            Membership { issi: floor_itsi, gssi },
        )
    }
}

/// The scan priority of a class of usage. Locked groups are not ordered.
pub open spec fn scan_priority_of(class_of_usage: u8) -> Option<u8> {
    if class_of_usage == 2 {
        Some(2u8)
    } else if class_of_usage == 3 || class_of_usage == 7 {
        Some(3u8)
    } else if class_of_usage == 4 {
        Some(4u8)
    } else if class_of_usage == 5 {
        Some(5u8)
    } else {
        None
    }
}

impl CcView {
    /// The scan priority of a group for a terminal.
    pub open spec fn scan_priority(self, issi: u32, gssi: u32) -> Option<u8> {
        match crate::table::lookup(self.class_of_usage, Membership { issi, gssi }) {
            Some(class_of_usage) => scan_priority_of(class_of_usage),
            None => None,
        }
    }

    /// Whether a group is locked for the terminal.
    pub open spec fn has_locked_group(self, issi: u32) -> bool {
        exists|i: int|
            0 <= i < self.class_of_usage.len() && (#[trigger] self.class_of_usage[i]).0.issi == issi
                && self.class_of_usage[i].1 == 6
    }

    /// Whether the terminal receives calls of the group.
    pub open spec fn is_receivable(self, issi: u32, gssi: u32) -> bool {
        match crate::table::lookup(self.class_of_usage, Membership { issi, gssi }) {
            None => false,
            Some(class_of_usage) => if class_of_usage == 6 {
                true
            } else if self.has_locked_group(issi) || class_of_usage == 0 || class_of_usage == 1 {
                false
            } else if class_of_usage == 4 || class_of_usage == 7 {
                true
            } else {
                match crate::table::lookup(self.scanning, issi) {
                    Some(enabled) => enabled,
                    None => true,
                }
            },
        }
    }

    /// Whether the terminal is in a connected private call with a circuit here.
    pub open spec fn in_private_call(self, issi: u32) -> bool {
        exists|i: int| #[trigger] self.private_call_holds(issi, i)
    }

    /// Whether the `i`th private call is connected and has a circuit for the
    /// terminal.
    pub open spec fn private_call_holds(self, issi: u32, i: int) -> bool {
        &&& 0 <= i < self.private_calls.len()
        &&& self.private_calls[i].1.connected
        &&& (self.private_calls[i].1.caller_itsi == issi || self.private_calls[i].1.callee_itsi == issi)
        &&& crate::table::contains(
            self.private_circuits,
            CallParty { call_id: self.private_calls[i].0, issi },
        )
    }
}

impl Candidates {
    /// The channels, the latest first.
    pub open spec fn list(self) -> Seq<ListeningCandidate> {
        opt_list(self.first) + opt_list(self.second) + opt_list(self.third)
    }
}

/// The list of no or one channel.
pub open spec fn opt_list(candidate: Option<ListeningCandidate>) -> Seq<ListeningCandidate> {
    match candidate {
        Some(c) => seq![c],
        None => Seq::empty(),
    }
}

/// Whether two channels are of the same call and timeslot.
pub open spec fn same_channel(a: ListeningCandidate, b: ListeningCandidate) -> bool {
    a.call_id == b.call_id && a.timeslot == b.timeslot
}

/// The channel, unless it is of the same call and timeslot as `candidate`.
pub open spec fn unless_same(
    held: Option<ListeningCandidate>,
    candidate: ListeningCandidate,
) -> Option<ListeningCandidate> {
    match held {
        Some(h) => if same_channel(h, candidate) {
            None
        } else {
            held
        },
        None => None,
    }
}

/// The channels with `candidate` in front, no call and timeslot twice, and no
/// more than three.
pub open spec fn pushed(held: Candidates, candidate: ListeningCandidate) -> Candidates {
    let first = unless_same(held.first, candidate);
    let second = unless_same(held.second, candidate);
    let third = unless_same(held.third, candidate);
    Candidates {
        first: Some(candidate),
        second: if first is Some {
            first
        } else if second is Some {
            second
        } else {
            third
        },
        third: if first is Some && second is Some {
            second
        } else if first is Some || second is Some {
            third
        } else {
            None
        },
    }
}

impl CcView {
    /// The channels of a terminal.
    pub open spec fn candidates_of(self, issi: u32) -> Candidates {
        match crate::table::lookup(self.candidates, issi) {
            Some(held) => held,
            None => Candidates { first: None, second: None, third: None },
        }
    }
}

impl CcRun {
    /// With a channel of a terminal recorded.
    pub open spec fn record(self, issi: u32, candidate: ListeningCandidate) -> CcRun {
        CcRun {
            st: CcView {
                candidates: crate::table::put(
                    self.st.candidates,
                    issi,
                    pushed(self.st.candidates_of(issi), candidate),
                ),
                ..self.st
            },
            ..self
        }
    }
}

/// The other party of a private call.
pub open spec fn peer_of(call: PrivateCallLocal, issi: u32) -> u32 {
    if call.caller_itsi == issi {
        call.callee_itsi
    } else {
        call.caller_itsi
    }
}

impl CcRun {
    /// With the channel recorded on which a terminal was heard.
    #[verifier::opaque]
    pub open spec fn record_uplink(self, issi: u32, call_id: u16) -> CcRun {
        match crate::table::lookup(self.st.private_circuits, CallParty { call_id, issi }) {
            Some(circuit) => self.record(issi,
                ListeningCandidate {
                    call_id,
                    timeslot: circuit.ts,
                    usage: circuit.usage,
                    service: ListeningService::Private {
                        peer_issi: match crate::table::lookup(self.st.private_calls, call_id) {
                            Some(call) => peer_of(call, issi),
                            None => 0,
                        },
                    },
                    last_seen: self.st.dltime,
                    confirmed: true,
                }),
            None => match crate::table::lookup(self.st.active_calls, call_id) {
                Some(call) => self.record(issi, self.st.group_candidate(call_id, call, true)),
                None => self,
            },
        }
    }
}

impl CcView {
    /// The channel of a group call.
    pub open spec fn group_candidate(
        self, call_id: u16,
        call: ActiveCall,
        confirmed: bool,
    ) -> ListeningCandidate {
        ListeningCandidate {
            call_id,
            timeslot: call.ts,
            usage: call.usage,
            service: ListeningService::Group { gssi: call.dest_gssi },
            last_seen: self.dltime,
            confirmed,
        }
    }

    /// Whether a private circuit is the one that was recorded.
    pub open spec fn has_private_circuit(self, candidate: ListeningCandidate) -> bool {
        exists|i: int|
            0 <= i < self.private_circuits.len() && (#[trigger] self.private_circuits[i]).1.call_id
                == candidate.call_id && self.private_circuits[i].1.ts == candidate.timeslot
                && self.private_circuits[i].1.usage == candidate.usage
    }

    /// The recorded channel, if its circuit is still open.
    pub open spec fn live_channel(
        self, candidate: ListeningCandidate,
    ) -> Option<AssociatedChannel> {
        let valid = match candidate.service {
            ListeningService::Group { gssi } => match crate::table::lookup(
                self.active_calls,
                candidate.call_id,
            ) {
                Some(call) => call.ts == candidate.timeslot && call.usage == candidate.usage,
                None => false,
            },
            ListeningService::Private { peer_issi } => self.has_private_circuit(candidate),
        };
        if valid {
            Some(
                AssociatedChannel {
                    call_id: candidate.call_id,
                    timeslot: candidate.timeslot,
                    usage: candidate.usage,
                },
            )
        } else {
            None
        }
    }

    /// The channel of the first of the `n` first private circuits that belongs to
    /// the terminal and to a connected call.
    pub open spec fn first_private_channel(self, issi: u32, from: int) -> Option<
        AssociatedChannel,
    >
        decreases self.private_circuits.len() - from,
    {
        if from < 0 || from >= self.private_circuits.len() {
            None
        } else {
            let (party, circuit) = self.private_circuits[from];
            if party.issi == issi && match crate::table::lookup(self.private_calls, party.call_id) {
                Some(call) => call.connected,
                None => false,
            } {
                Some(
                    AssociatedChannel {
                        call_id: circuit.call_id,
                        timeslot: circuit.ts,
                        usage: circuit.usage,
                    },
                )
            } else {
                self.first_private_channel(issi, from + 1)
            }
        }
    }

    /// A channel with its rank: scan priority first, then whether it was confirmed.
    pub open spec fn ranked(
        self, issi: u32,
        held: Option<ListeningCandidate>,
    ) -> Option<(u8, bool, AssociatedChannel)> {
        match held {
            None => None,
            Some(candidate) => match self.live_channel(candidate) {
                None => None,
                Some(channel) => Some(
                    (
                        match candidate.service {
                            ListeningService::Group { gssi } => match self.scan_priority(issi, gssi) {
                                Some(priority) => priority,
                                None => 0,
                            },
                            ListeningService::Private { peer_issi } => 255u8,
                        },
                        candidate.confirmed,
                        channel,
                    ),
                ),
            },
        }
    }
}

/// The higher ranked of two channels; of two with one rank the later.
pub open spec fn higher(
    a: Option<(u8, bool, AssociatedChannel)>,
    b: Option<(u8, bool, AssociatedChannel)>,
) -> Option<(u8, bool, AssociatedChannel)> {
    match (a, b) {
        (Some(left), Some(right)) => if left.0 > right.0 || (left.0 == right.0 && left.1
            && !right.1) {
            a
        } else {
            b
        },
        (Some(left), None) => a,
        _ => b,
    }
}

impl CcView {
    /// The traffic channel on which a terminal is reached: that of its connected
    /// private call, else the highest ranked of its last channels.
    #[verifier::opaque]
    pub open spec fn preferred_channel(self, issi: u32) -> Option<AssociatedChannel> {
        if self.in_private_call(issi) && self.first_private_channel(issi, 0) is Some {
            self.first_private_channel(issi, 0)
        } else {
            let held = self.candidates_of(issi);
            match higher(
                higher(self.ranked(issi, held.first), self.ranked(issi, held.second)),
                self.ranked(issi, held.third),
            ) {
                Some(best) => Some(best.2),
                None => None,
            }
        }
    }

    /// Whether a terminal follows the calls of a group.
    pub open spec fn follows(self, issi: u32, gssi: u32) -> bool {
        crate::table::contains(self.members, Membership { issi, gssi }) && self.is_receivable(issi, gssi)
            && !self.in_private_call(issi)
    }
}

impl CcRun {
    /// With the channel of a group call recorded for each of `terminals` that
    /// follows it.
    pub open spec fn track_each(
        self, terminals: Seq<(u32, bool)>,
        call_id: u16,
        call: ActiveCall,
    ) -> CcRun
        decreases terminals.len(),
    {
        if terminals.len() == 0 {
            self
        } else {
            let before = self.track_each(terminals.drop_last(), call_id, call);
            let issi = terminals.last().0;
            if self.st.follows(issi, call.dest_gssi) {
                before.record(issi, self.st.group_candidate(call_id, call, false))
            } else {
                before
            }
        }
    }

    /// With the channel of a group call recorded for every terminal that follows
    /// it.
    #[verifier::opaque]
    pub open spec fn track_listeners(self, call_id: u16) -> CcRun {
        match crate::table::lookup(self.st.active_calls, call_id) {
            Some(call) => self.track_each(self.st.known, call_id, call),
            None => self,
        }
    }
}

/// The first of the last channels that is of a group call.
pub open spec fn first_group_candidate(held: Candidates) -> Option<ListeningCandidate> {
    if held.first is Some && held.first->0.service is Group {
        held.first
    } else if held.second is Some && held.second->0.service is Group {
        held.second
    } else if held.third is Some && held.third->0.service is Group {
        held.third
    } else {
        None
    }
}

impl CcView {
    /// The group channel of a terminal that would leave it for a call of `gssi`.
    pub open spec fn leaving_channel(self, issi: u32, gssi: u32) -> Option<AssociatedChannel> {
        if !self.is_receivable(issi, gssi) || self.in_private_call(issi) {
            None
        } else {
            match (
                self.scan_priority(issi, gssi),
                first_group_candidate(self.candidates_of(issi)),
            ) {
                (Some(new_priority), Some(current)) => match self.scan_priority(issi,
                    current.service->gssi) {
                    Some(current_priority) => if new_priority <= current_priority {
                        None
                    } else {
                        self.live_channel(current)
                    },
                    None => None,
                },
                _ => None,
            }
        }
    }
}

/// Whether one of `channels` has the call and timeslot of `channel`.
pub open spec fn lists_channel(
    channels: Seq<AssociatedChannel>,
    channel: AssociatedChannel,
) -> bool {
    exists|i: int|
        0 <= i < channels.len() && (#[trigger] channels[i]).timeslot == channel.timeslot
            && channels[i].call_id == channel.call_id
}

impl CcView {
    /// The channels that the terminals with `classes` would leave for a call of
    /// `gssi`, none twice.
    pub open spec fn leaving_channels(
        self, classes: Seq<(Membership, u8)>,
        gssi: u32,
    ) -> Seq<AssociatedChannel>
        decreases classes.len(),
    {
        if classes.len() == 0 {
            Seq::empty()
        } else {
            let before = self.leaving_channels(classes.drop_last(), gssi);
            let member = classes.last().0;
            if member.gssi != gssi {
                before
            } else {
                match self.leaving_channel(member.issi, gssi) {
                    Some(channel) => if lists_channel(before, channel) {
                        before
                    } else {
                        before.push(channel)
                    },
                    None => before,
                }
            }
        }
    }

    /// The group channels on which a call of `gssi` is announced, because a
    /// terminal there would leave for it.
    #[verifier::opaque]
    pub open spec fn announcement_channels(self, gssi: u32) -> Seq<AssociatedChannel> {
        self.leaving_channels(self.class_of_usage, gssi)
    }
}

// ---------------------------------------------------------------------------
// Release
// ---------------------------------------------------------------------------

/// Whether Brew carries the group.
pub open spec fn brew_carries(brew: Seq<(u32, u32)>, gssi: u32) -> bool {
    exists|i: int| 0 <= i < brew.len() && (#[trigger] brew[i]).0 <= gssi <= brew[i].1
}

impl CcRun {
    /// With the timeslot freed, if call control holds it.
    pub open spec fn free_slot(self, ts: u8) -> CcRun {
        CcRun {
            slots: if self.slots.owner(ts) == Some(TimeslotOwner::Cmce) {
                self.slots.with(ts, None)
            } else {
                self.slots
            },
            ..self
        }
    }

    /// With the circuit on `ts` forgotten.
    pub open spec fn drop_circuit(self, ts: u8) -> CcRun {
        CcRun {
            st: CcView {
                circuits: CircuitView {
                    circuits: crate::table::del(self.st.circuits.circuits, ts),
                    ..self.st.circuits
                },
                ..self.st
            },
            ..self
        }
    }

    /// The end of a released group call: its circuit is closed, its timeslot freed
    /// and everyone beside call control told.
    #[verifier::opaque]
    pub open spec fn finalize_release(
        self, call_id: u16,
        ts: u8,
        dest_gssi: u32,
        is_local: bool,
        brew_uuid: Option<u128>,
    ) -> CcRun {
        let closed = match crate::table::lookup(self.st.circuits.circuits, ts) {
            Some(circuit) => self.drop_circuit(ts).signal_close(circuit),
            None => self.drop_circuit(ts),
        };
        let ended = CallControl::CallEnded { call_id, ts };
        let told_umac = closed.control(TetraEntity::Umac, ended);
        let told_swmi = if self.swmi.is_present() {
            told_umac.control(TetraEntity::Swmi, ended)
        } else {
            told_umac
        };
        let freed = told_swmi.free_slot(ts);
        if brew_carries(self.brew, dest_gssi) {
            let told_brew = if is_local {
                freed.control(TetraEntity::Brew, ended)
            } else {
                freed
            };
            match brew_uuid {
                Some(uuid) => told_brew.control(TetraEntity::Brew,
                    CallControl::NetworkCallEnd { brew_uuid: uuid }),
                None => told_brew,
            }
        } else {
            freed
        }
    }
}

impl CcView {
    /// Without what is pending for a group call.
    pub open spec fn forget_pending(self, call_id: u16) -> CcView {
        CcView {
            pending_grants: crate::table::del(self.pending_grants, call_id),
            restore_prepared: crate::table::del(self.restore_prepared, call_id),
            pending_restore_floors: without_call(self.pending_restore_floors, call_id),
            ..self
        }
    }
}

/// The entries of other calls.
pub open spec fn without_call<V>(entries: Seq<(CallParty, V)>, call_id: u16) -> Seq<
    (CallParty, V),
> {
    entries.filter(|entry: (CallParty, V)| entry.0.call_id != call_id)
}

/// The Brew session of a call: that of its network speaker, else that of its
/// origin.
pub open spec fn session_of(call: ActiveCall) -> Option<u128> {
    match call.brew_uuid {
        Some(uuid) => Some(uuid),
        None => match call.origin {
            CallOrigin::Network { brew_uuid } => Some(brew_uuid),
            _ => None,
        },
    }
}

impl CcRun {
    /// The release of a group call. It can no longer be joined; its circuit stays
    /// until the release is transmitted.
    #[verifier::opaque]
    pub open spec fn release_call(self, call_id: u16, cause: DisconnectCause) -> CcRun {
        let forgotten = CcRun { st: self.st.forget_pending(call_id), ..self };
        match crate::table::lookup(self.st.active_calls, call_id) {
            None => CcRun {
                st: CcView {
                    active_calls: crate::table::del(self.st.active_calls, call_id),
                    ..forgotten.st
                },
                ..forgotten
            },
            Some(call) => {
                let removed = CcRun {
                    st: CcView {
                        active_calls: crate::table::del(self.st.active_calls, call_id),
                        cached_setups: crate::table::del(self.st.cached_setups, call_id),
                        ..forgotten.st
                    },
                    ..forgotten
                };
                let is_local = call.origin is Local;
                match crate::table::lookup(self.st.cached_setups, call_id) {
                    Some(cached) => {
                        let told = removed.emit(stolen(
                                DownlinkPdu::DRelease {
                                    call_identifier: cached.setup.call_identifier,
                                    disconnect_cause: cause,
                                },
                                cached.dest,
                                call.ts,
                            ));
                        CcRun {
                            st: CcView {
                                releasing_calls: told.st.releasing_calls.push(
                                    ReleasingCall {
                                        call_id,
                                        ts: call.ts,
                                        dest_gssi: call.dest_gssi,
                                        is_local,
                                        brew_uuid: session_of(call),
                                        sent_at: self.st.dltime,
                                    },
                                ),
                                ..told.st
                            },
                            ..told
                        }
                    },
                    None => removed.finalize_release(call_id,
                        call.ts,
                        call.dest_gssi,
                        is_local,
                        session_of(call)),
                }
            },
        }
    }

    /// With each of `calls` released because nobody listens any more.
    pub open spec fn drop_each(self, calls: Seq<(u16, ActiveCall)>, gssi: u32) -> CcRun
        decreases calls.len(),
    {
        if calls.len() == 0 {
            self
        } else {
            let before = self.drop_each(calls.drop_last(), gssi);
            let (call_id, call) = calls.last();
            if call.dest_gssi != gssi {
                before
            } else {
                let told = match call.origin {
                    CallOrigin::Network { brew_uuid } => if brew_carries(self.brew, gssi) {
                        before.control(TetraEntity::Brew, CallControl::NetworkCallEnd { brew_uuid })
                    } else {
                        before
                    },
                    _ => before,
                };
                told.release_call(call_id, DisconnectCause::SwmiRequestedDisconnection)
            }
        }
    }

    /// The calls of a group are released where nobody listens to it.
    #[verifier::opaque]
    pub open spec fn drop_unlistened(self, gssi: u32) -> CcRun {
        if self.st.has_listener(gssi) {
            self
        } else {
            self.drop_each(self.st.active_calls, gssi)
        }
    }

    /// The same for each of `groups`.
    pub open spec fn drop_unlistened_groups(self, groups: Seq<u32>) -> CcRun
        decreases groups.len(),
    {
        if groups.len() == 0 {
            self
        } else {
            self.drop_unlistened_groups(groups.drop_last()).drop_unlistened(groups.last())
        }
    }
}

// ---------------------------------------------------------------------------
// Central group calls
// ---------------------------------------------------------------------------

/// The communication type of a group call.
pub open spec fn group_communication(acknowledged: bool) -> CommunicationType {
    if acknowledged {
        CommunicationType::P2MpAcked
    } else {
        CommunicationType::P2Mp
    }
}

/// The bearer of a speech call.
pub open spec fn speech_service(communication_type: CommunicationType) -> BasicServiceInformation {
    BasicServiceInformation {
        circuit_mode_type: CircuitModeType::TchS,
        encryption_flag: false,
        communication_type,
        slots_per_frame: None,
        speech_service: Some(0u8),
    }
}

/// How late entry to a group call is announced.
pub open spec fn late_entry_notification(acknowledged: bool) -> Option<u64> {
    Some(
        if acknowledged {
            NOTIFICATION_LE_ACKNOWLEDGEMENT
        } else {
            NOTIFICATION_LE_BROADCAST
        },
    )
}

impl CcRun {
    /// With `entry` cached for late entry.
    pub open spec fn cache_setup(self, call_id: u16, setup: DSetup, dest: TetraAddress) -> CcRun {
        CcRun {
            st: CcView {
                cached_setups: crate::table::put(
                    self.st.cached_setups,
                    call_id,
                    CachedSetup { setup, dest, receipt: None },
                ),
                ..self.st
            },
            ..self
        }
    }

    /// With the group call held under `call_id`.
    pub open spec fn hold_call(self, call_id: u16, call: ActiveCall) -> CcRun {
        CcRun {
            st: CcView {
                active_calls: crate::table::put(self.st.active_calls, call_id, call),
                ..self.st
            },
            ..self
        }
    }

    /// With a circuit opened on `ts`.
    pub open spec fn open_circuit(
        self, ts: u8,
        comm_type: CommunicationType,
        call_id: Option<u16>,
        duplex: bool,
    ) -> CcRun {
        let circuit = self.st.circuits.circuit(ts, comm_type, call_id, duplex);
        (CcRun {
                st: CcView { circuits: self.st.circuits.opened(circuit, call_id), ..self.st },
                slots: self.slots.with(ts, Some(TimeslotOwner::Cmce)),
                ..self
            }).signal_open(circuit)
    }
}

/// The D-SETUP of a central group call.
pub open spec fn remote_setup(call_id: u16, remote: RemoteCall) -> DSetup {
    DSetup {
        call_identifier: call_id,
        call_time_out: CallTimeout::T5m,
        hook_method_selection: false,
        simplex_duplex_selection: false,
        basic_service_information: speech_service(group_communication(remote.acknowledged)),
        transmission_grant: if remote.floor_itsi == 0 {
            TransmissionGrant::NotGranted
        } else {
            TransmissionGrant::GrantedToOtherUser
        },
        transmission_request_permission: false,
        call_priority: remote.priority,
        notification_indicator: late_entry_notification(remote.acknowledged),
        calling_party_address_ssi: Some(remote.owner_itsi),
    }
}

impl CcRun {
    /// A central group call starts in this cell, if somebody listens to it, it is
    /// not yet active and a timeslot is free. Where `announce` is false it is
    /// prepared for a terminal that restores its transmission here.
    #[verifier::opaque]
    pub open spec fn start_remote(self, call_id: u16, remote: RemoteCall, announce: bool) -> CcRun {
        if !self.st.has_listener(remote.gssi) || crate::table::contains(self.st.active_calls, call_id) {
            self
        } else {
            match self.slots.lowest_free() {
                None => self,
                Some(ts) => {
                    let comm_type = group_communication(remote.acknowledged);
                    let circuit = self.st.circuits.circuit(ts, comm_type, Some(call_id), false);
                    let opened = self.open_circuit(ts, comm_type, Some(call_id), false);
                    let dest = TetraAddress::gssi(remote.gssi);
                    let setup = remote_setup(call_id, remote);
                    let cached = opened.cache_setup(call_id, setup, dest);
                    let announced = if announce {
                        ((CcRun {
                                    st: CcView {
                                        restore_prepared: crate::table::del(
                                            cached.st.restore_prepared,
                                            call_id,
                                        ),
                                        ..cached.st
                                    },
                                    ..cached
                                }).send_setup(setup,
                                dest,
                                circuit.usage,
                                ts,
                                None)).announce_on(setup,
                            dest,
                            circuit.usage,
                            ts,
                            cached.st.announcement_channels(remote.gssi))
                    } else {
                        CcRun {
                            st: CcView {
                                restore_prepared: crate::table::put(
                                    cached.st.restore_prepared,
                                    call_id,
                                    true,
                                ),
                                ..cached.st
                            },
                            ..cached
                        }
                    };
                    let held = announced.hold_call(call_id,
                            ActiveCall {
                                origin: CallOrigin::Swmi,
                                dest_gssi: remote.gssi,
                                source_issi: remote.floor_itsi,
                                ts,
                                usage: circuit.usage,
                                priority: remote.priority,
                                acknowledged: remote.acknowledged,
                                tx_active: remote.floor_itsi != 0,
                                hangtime_start: None,
                                brew_uuid: None,
                            }).track_listeners(call_id);
                    if remote.floor_itsi != 0 {
                        held.control_both(TetraEntity::Umac,
                            TetraEntity::Swmi,
                            CallControl::FloorGranted {
                                call_id,
                                source_issi: remote.floor_itsi,
                                dest_gssi: remote.gssi,
                                ts,
                            })
                    } else {
                        held
                    }
                },
            }
        }
    }

    /// With each of `waiting` started whose group is among `groups` and has a
    /// listener.
    pub open spec fn activate_each(self, waiting: Seq<(u16, RemoteCall)>, groups: Seq<u32>) -> CcRun
        decreases waiting.len(),
    {
        if waiting.len() == 0 {
            self
        } else {
            let before = self.activate_each(waiting.drop_last(), groups);
            let (call_id, remote) = waiting.last();
            if groups.contains(remote.gssi) && self.st.has_listener(remote.gssi) {
                (CcRun {
                        st: CcView {
                            pending_remote: crate::table::del(before.st.pending_remote, call_id),
                            ..before.st
                        },
                        ..before
                    }).start_remote(call_id,
                    remote,
                    !self.st.floor_holder_is_local_member(remote.gssi, remote.floor_itsi))
            } else {
                before
            }
        }
    }

    /// The central calls start that waited for a listener of one of `groups`.
    #[verifier::opaque]
    pub open spec fn activate_pending(self, groups: Seq<u32>) -> CcRun {
        self.activate_each(self.st.pending_remote, groups)
    }

    /// The floor of a central group call is granted.
    #[verifier::opaque]
    pub open spec fn central_grant(self, call_id: u16, itsi: u32) -> CcRun {
        match crate::table::lookup(self.st.active_calls, call_id) {
            None => self,
            Some(call) => {
                let held = self.hold_call(call_id,
                    ActiveCall { source_issi: itsi, tx_active: true, hangtime_start: None, ..call });
                let told = if crate::table::contains(self.st.known, itsi) {
                    held.grant_to(call_id, itsi, itsi, call.ts, TransmissionGrant::Granted)
                } else {
                    held
                };
                told.grant_to_group(call_id, itsi, call.dest_gssi, call.ts).control_both(TetraEntity::Umac,
                    TetraEntity::Swmi,
                    CallControl::FloorGranted {
                        call_id,
                        source_issi: itsi,
                        dest_gssi: call.dest_gssi,
                        ts: call.ts,
                    })
            },
        }
    }
}

impl CcView {
    /// Whether the floor is taken from the speaker: it has to be the current one.
    pub open spec fn preemption_applies(self, call_id: u16, previous_itsi: u32) -> bool {
        match crate::table::lookup(self.active_calls, call_id) {
            Some(call) => call.source_issi == previous_itsi && call.tx_active,
            None => false,
        }
    }
}

impl CcRun {
    /// The floor is taken from the speaker.
    #[verifier::opaque]
    pub open spec fn preempt(self, call_id: u16, previous_itsi: u32, next_itsi: u32) -> CcRun {
        if !self.st.preemption_applies(call_id, previous_itsi) {
            self
        } else {
            let call = crate::table::lookup(self.st.active_calls, call_id)->0;
            let held = self.hold_call(call_id,
                ActiveCall { tx_active: false, hangtime_start: Some(self.st.dltime), ..call });
            let told = if crate::table::contains(self.st.known, previous_itsi) {
                held.interrupt(call_id, next_itsi, TetraAddress::issi(previous_itsi), call.ts)
            } else {
                held
            };
            told.interrupt(call_id, next_itsi, TetraAddress::gssi(call.dest_gssi), call.ts).control_both(TetraEntity::Umac,
                TetraEntity::Swmi,
                CallControl::FloorReleased { call_id, ts: call.ts })
        }
    }
}

} // verus!
