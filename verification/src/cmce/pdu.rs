//! Values that call control exchanges with its neighbours.
//!
//! A downlink PDU holds the elements that the station sets. Optional elements
//! that it never sends have no field.
use crate::table::Key;
use vstd::prelude::*;

verus! {

/// What an SSI addresses.
#[derive(Debug, Clone, Copy, PartialEq, Eq, Structural)]
pub enum SsiType {
    Unknown,
    Issi,
    Gssi,
    Ussi,
    Esi,
}

/// A short identity with its kind.
#[derive(Debug, Clone, Copy, PartialEq, Eq, Structural)]
pub struct TetraAddress {
    pub ssi: u32,
    pub ssi_type: SsiType,
}

impl TetraAddress {
    /// An address of any kind.
    #[verifier::allow_in_spec]
    pub fn new(ssi: u32, ssi_type: SsiType) -> TetraAddress
        returns
            (TetraAddress { ssi, ssi_type }),
    {
        TetraAddress { ssi, ssi_type }
    }

    /// The address of one terminal.
    #[verifier::allow_in_spec]
    pub fn issi(ssi: u32) -> TetraAddress
        returns
            (TetraAddress { ssi, ssi_type: SsiType::Issi }),
    {
        TetraAddress { ssi, ssi_type: SsiType::Issi }
    }

    /// The address of a group.
    #[verifier::allow_in_spec]
    pub fn gssi(ssi: u32) -> TetraAddress
        returns
            (TetraAddress { ssi, ssi_type: SsiType::Gssi }),
    {
        TetraAddress { ssi, ssi_type: SsiType::Gssi }
    }
}

/// The part of the stack that a control message is for.
#[derive(Debug, Clone, Copy, PartialEq, Eq, Structural)]
pub enum TetraEntity {
    Umac,
    Brew,
    Swmi,
}

/// The layer-2 service that carries a downlink PDU.
#[derive(Debug, Clone, Copy, PartialEq, Eq, Structural)]
pub enum Layer2Service {
    Acknowledged,
    Unacknowledged,
}

/// How a call addresses its parties.
#[derive(Debug, Clone, Copy, PartialEq, Eq, Structural)]
pub enum CommunicationType {
    P2p,
    P2Mp,
    P2MpAcked,
    P2MpBcast,
}

/// The circuit mode of a bearer.
#[derive(Debug, Clone, Copy, PartialEq, Eq, Structural)]
pub enum CircuitModeType {
    TchS,
    Tch72,
    Tch48n1,
    Tch24n1,
}

/// Which directions a circuit carries.
#[derive(Debug, Clone, Copy, PartialEq, Eq, Structural)]
pub enum Direction {
    Dl,
    Ul,
    Both,
}

/// Who may transmit.
#[derive(Debug, Clone, Copy, PartialEq, Eq, Structural)]
pub enum TransmissionGrant {
    Granted,
    NotGranted,
    RequestQueued,
    GrantedToOtherUser,
}

/// Why a call ends.
#[derive(Debug, Clone, Copy, PartialEq, Eq, Structural)]
pub enum DisconnectCause {
    CauseNotDefinedOrUnknown,
    UserRequestedDisconnection,
    CalledPartyBusy,
    CalledPartyNotReachable,
    CalledPartyDoesNotSupportEncryption,
    CongestionInInfrastructure,
    NotAllowedTrafficCase,
    IncompatibleTrafficCase,
    RequestedServiceNotAvailable,
    PreEmptiveUseOfResource,
    InvalidCallIdentifier,
    CallRejectedByTheCalledParty,
    NoIdleCcEntity,
    ExpiryOfTimer,
    SwmiRequestedDisconnection,
    AcknowledgedServiceNotCompleted,
}

impl DisconnectCause {
    /// The cause with this five-bit code; none where the code is reserved.
    #[verifier::allow_in_spec]
    pub fn from_code(code: u8) -> Option<DisconnectCause>
        returns
            (if code == 0 {
                Some(DisconnectCause::CauseNotDefinedOrUnknown)
            } else if code == 1 {
                Some(DisconnectCause::UserRequestedDisconnection)
            } else if code == 2 {
                Some(DisconnectCause::CalledPartyBusy)
            } else if code == 3 {
                Some(DisconnectCause::CalledPartyNotReachable)
            } else if code == 4 {
                Some(DisconnectCause::CalledPartyDoesNotSupportEncryption)
            } else if code == 5 {
                Some(DisconnectCause::CongestionInInfrastructure)
            } else if code == 6 {
                Some(DisconnectCause::NotAllowedTrafficCase)
            } else if code == 7 {
                Some(DisconnectCause::IncompatibleTrafficCase)
            } else if code == 8 {
                Some(DisconnectCause::RequestedServiceNotAvailable)
            } else if code == 9 {
                Some(DisconnectCause::PreEmptiveUseOfResource)
            } else if code == 10 {
                Some(DisconnectCause::InvalidCallIdentifier)
            } else if code == 11 {
                Some(DisconnectCause::CallRejectedByTheCalledParty)
            } else if code == 12 {
                Some(DisconnectCause::NoIdleCcEntity)
            } else if code == 13 {
                Some(DisconnectCause::ExpiryOfTimer)
            } else if code == 14 {
                Some(DisconnectCause::SwmiRequestedDisconnection)
            } else if code == 15 {
                Some(DisconnectCause::AcknowledgedServiceNotCompleted)
            } else {
                None::<DisconnectCause>
            }),
    {
        match code {
            0 => Some(DisconnectCause::CauseNotDefinedOrUnknown),
            1 => Some(DisconnectCause::UserRequestedDisconnection),
            2 => Some(DisconnectCause::CalledPartyBusy),
            3 => Some(DisconnectCause::CalledPartyNotReachable),
            4 => Some(DisconnectCause::CalledPartyDoesNotSupportEncryption),
            5 => Some(DisconnectCause::CongestionInInfrastructure),
            6 => Some(DisconnectCause::NotAllowedTrafficCase),
            7 => Some(DisconnectCause::IncompatibleTrafficCase),
            8 => Some(DisconnectCause::RequestedServiceNotAvailable),
            9 => Some(DisconnectCause::PreEmptiveUseOfResource),
            10 => Some(DisconnectCause::InvalidCallIdentifier),
            11 => Some(DisconnectCause::CallRejectedByTheCalledParty),
            12 => Some(DisconnectCause::NoIdleCcEntity),
            13 => Some(DisconnectCause::ExpiryOfTimer),
            14 => Some(DisconnectCause::SwmiRequestedDisconnection),
            15 => Some(DisconnectCause::AcknowledgedServiceNotCompleted),
            _ => None,
        }
    }

    /// The cause with this code, or `fallback` where the code is reserved.
    #[verifier::allow_in_spec]
    pub fn from_code_or(code: u8, fallback: DisconnectCause) -> DisconnectCause
        returns
            (match DisconnectCause::from_code(code) {
                Some(cause) => cause,
                None => fallback,
            }),
    {
        match DisconnectCause::from_code(code) {
            Some(cause) => cause,
            None => fallback,
        }
    }

    /// The five-bit code of the cause.
    #[verifier::allow_in_spec]
    pub fn code(self) -> u8
        returns
            (match self {
                DisconnectCause::CauseNotDefinedOrUnknown => 0u8,
                DisconnectCause::UserRequestedDisconnection => 1u8,
                DisconnectCause::CalledPartyBusy => 2u8,
                DisconnectCause::CalledPartyNotReachable => 3u8,
                DisconnectCause::CalledPartyDoesNotSupportEncryption => 4u8,
                DisconnectCause::CongestionInInfrastructure => 5u8,
                DisconnectCause::NotAllowedTrafficCase => 6u8,
                DisconnectCause::IncompatibleTrafficCase => 7u8,
                DisconnectCause::RequestedServiceNotAvailable => 8u8,
                DisconnectCause::PreEmptiveUseOfResource => 9u8,
                DisconnectCause::InvalidCallIdentifier => 10u8,
                DisconnectCause::CallRejectedByTheCalledParty => 11u8,
                DisconnectCause::NoIdleCcEntity => 12u8,
                DisconnectCause::ExpiryOfTimer => 13u8,
                DisconnectCause::SwmiRequestedDisconnection => 14u8,
                DisconnectCause::AcknowledgedServiceNotCompleted => 15u8,
            }),
    {
        match self {
            DisconnectCause::CauseNotDefinedOrUnknown => 0,
            DisconnectCause::UserRequestedDisconnection => 1,
            DisconnectCause::CalledPartyBusy => 2,
            DisconnectCause::CalledPartyNotReachable => 3,
            DisconnectCause::CalledPartyDoesNotSupportEncryption => 4,
            DisconnectCause::CongestionInInfrastructure => 5,
            DisconnectCause::NotAllowedTrafficCase => 6,
            DisconnectCause::IncompatibleTrafficCase => 7,
            DisconnectCause::RequestedServiceNotAvailable => 8,
            DisconnectCause::PreEmptiveUseOfResource => 9,
            DisconnectCause::InvalidCallIdentifier => 10,
            DisconnectCause::CallRejectedByTheCalledParty => 11,
            DisconnectCause::NoIdleCcEntity => 12,
            DisconnectCause::ExpiryOfTimer => 13,
            DisconnectCause::SwmiRequestedDisconnection => 14,
            DisconnectCause::AcknowledgedServiceNotCompleted => 15,
        }
    }
}

/// A cause is what its code stands for.
pub proof fn law_cause_code_round_trip(cause: DisconnectCause)
    ensures
        DisconnectCause::from_code(cause.code()) == Some(cause),
{
}

/// How long a call may last.
#[derive(Debug, Clone, Copy, PartialEq, Eq, Structural)]
pub enum CallTimeout {
    T30s,
    T5m,
}

/// How long a call may take to be set up.
#[derive(Debug, Clone, Copy, PartialEq, Eq, Structural)]
pub enum CallTimeoutSetupPhase {
    T10s,
    T30s,
}

/// The bearer that a call asks for.
#[derive(Debug, Clone, Copy, PartialEq, Eq, Structural)]
pub struct BasicServiceInformation {
    pub circuit_mode_type: CircuitModeType,
    pub encryption_flag: bool,
    pub communication_type: CommunicationType,
    pub slots_per_frame: Option<u8>,
    pub speech_service: Option<u8>,
}

/// How a called party is identified.
#[derive(Debug, Clone, Copy, PartialEq, Eq, Structural)]
pub enum PartyTypeIdentifier {
    Sna,
    Ssi,
    Tsi,
}

/// Where an uplink PDU came from.
#[derive(Debug, Clone, Copy, PartialEq, Eq, Structural)]
pub struct UplinkPrim {
    pub handle: u32,
    pub endpoint_id: u32,
    pub link_id: u32,
    pub received: TetraAddress,
}

/// U-SETUP.
#[derive(Debug, Clone, Copy, PartialEq, Eq, Structural)]
pub struct USetup {
    pub area_selection: u8,
    pub hook_method_selection: bool,
    pub simplex_duplex_selection: bool,
    pub basic_service_information: BasicServiceInformation,
    pub request_to_transmit_send_data: bool,
    pub call_priority: u8,
    pub called_party_type_identifier: PartyTypeIdentifier,
    pub called_party_ssi: Option<u32>,
    pub called_party_extension: Option<u32>,
}

/// An uplink call-control PDU.
#[derive(Debug, Clone, Copy, PartialEq, Eq, Structural)]
pub enum UplinkPdu {
    USetup(USetup),
    UTxCeased { call_identifier: u16 },
    UTxDemand { call_identifier: u16, tx_demand_priority: u8 },
    URelease { call_identifier: u16, disconnect_cause: DisconnectCause },
    UDisconnect { call_identifier: u16, disconnect_cause: DisconnectCause },
    UAlert { call_identifier: u16 },
    UConnect { call_identifier: u16 },
    UInfo { call_identifier: u16, poll_response: bool },
    UCallRestore { call_identifier: u16, other_party_ssi: Option<u32> },
    /// A U-CALL RESTORE that could not be read.
    MalformedUCallRestore,
    /// A status PDU, which the status service handles.
    UStatus,
}

/// A U-SETUP with where it came from.
#[derive(Debug, Clone, Copy, PartialEq, Eq, Structural)]
pub struct SetupRequest {
    pub prim: UplinkPrim,
    pub pdu: USetup,
}

/// D-SETUP.
#[derive(Debug, Clone, Copy, PartialEq, Eq, Structural)]
pub struct DSetup {
    pub call_identifier: u16,
    pub call_time_out: CallTimeout,
    pub hook_method_selection: bool,
    pub simplex_duplex_selection: bool,
    pub basic_service_information: BasicServiceInformation,
    pub transmission_grant: TransmissionGrant,
    pub transmission_request_permission: bool,
    pub call_priority: u8,
    pub notification_indicator: Option<u64>,
    pub calling_party_address_ssi: Option<u32>,
}

/// D-CONNECT.
#[derive(Debug, Clone, Copy, PartialEq, Eq, Structural)]
pub struct DConnect {
    pub call_identifier: u16,
    pub call_time_out: CallTimeout,
    pub hook_method_selection: bool,
    pub simplex_duplex_selection: bool,
    pub transmission_grant: TransmissionGrant,
    pub transmission_request_permission: bool,
    pub call_ownership: bool,
    pub call_priority: Option<u64>,
}

/// A downlink call-control PDU.
#[derive(Debug, Clone, Copy, PartialEq, Eq, Structural)]
pub enum DownlinkPdu {
    DSetup(DSetup),
    DCallProceeding {
        call_identifier: u16,
        call_time_out_set_up_phase: CallTimeoutSetupPhase,
        hook_method_selection: bool,
        simplex_duplex_selection: bool,
    },
    DConnect(DConnect),
    DConnectAcknowledge {
        call_identifier: u16,
        call_time_out: CallTimeout,
        transmission_grant: TransmissionGrant,
        transmission_request_permission: bool,
    },
    DAlert {
        call_identifier: u16,
        call_time_out_set_up_phase: CallTimeoutSetupPhase,
        simplex_duplex_selection: bool,
        call_queued: bool,
    },
    DRelease { call_identifier: u16, disconnect_cause: DisconnectCause },
    DCallRestore {
        call_identifier: u16,
        transmission_grant: TransmissionGrant,
        transmission_request_permission: bool,
        reset_call_time_out_timer: bool,
    },
    DInfo { call_identifier: u16, reset_call_time_out_timer: bool, poll_request: bool },
    DTxCeased { call_identifier: u16, transmission_request_permission: bool },
    DTxGranted {
        call_identifier: u16,
        transmission_grant: TransmissionGrant,
        transmission_request_permission: bool,
        transmitting_party_ssi: u32,
    },
    DTxInterrupt {
        call_identifier: u16,
        transmission_grant: TransmissionGrant,
        transmission_request_permission: bool,
        transmitting_party_ssi: u32,
    },
    DTxWait { call_identifier: u16, transmission_request_permission: bool },
    /// Nothing is sent on the air: the mobile link entity answers the service
    /// restoration with a failure.
    RestoreFailure,
    /// Short data; the short data service holds its content.
    DSdsData { content: u64 },
}

/// A traffic channel that a downlink PDU assigns.
#[derive(Debug, Clone, Copy, PartialEq, Eq)]
pub struct ChanAllocReq {
    pub usage: Option<u8>,
    /// Timeslots 1 to 4.
    pub timeslots: (bool, bool, bool, bool),
}

/// A traffic channel that a terminal listens to.
#[derive(Debug, Clone, Copy, PartialEq, Eq, Structural)]
pub struct AssociatedChannel {
    pub call_id: u16,
    pub timeslot: u8,
    pub usage: u8,
}

/// A downlink PDU on its way to the mobile link entity.
#[derive(Debug, Clone, Copy, PartialEq, Eq)]
pub struct UnitdataReq {
    pub pdu: DownlinkPdu,
    pub handle: u32,
    pub endpoint_id: u32,
    pub link_id: u32,
    pub layer2service: Layer2Service,
    pub stealing_permission: bool,
    pub chan_alloc: Option<ChanAllocReq>,
    pub associated_channel: Option<AssociatedChannel>,
    pub main_address: TetraAddress,
    /// Under which number the sender is told what became of the PDU.
    pub receipt: Option<u64>,
}

/// A radio circuit.
#[derive(Debug, Clone, Copy, PartialEq, Eq, Structural)]
pub struct CmceCircuit {
    pub call_id: u16,
    pub direction: Direction,
    pub ts: u8,
    pub usage: u8,
    pub circuit_mode: CircuitModeType,
    pub comm_type: CommunicationType,
    pub duplex: bool,
    pub speech_service: Option<u8>,
    pub etee_encrypted: bool,
}

/// A message between call control and the entities beside it.
#[derive(Debug, Clone, Copy, PartialEq, Eq, Structural)]
pub enum CallControl {
    Open(CmceCircuit),
    Close(Direction, u8),
    FloorGranted { call_id: u16, source_issi: u32, dest_gssi: u32, ts: u8 },
    FloorReleased { call_id: u16, ts: u8 },
    CallEnded { call_id: u16, ts: u8 },
    NetworkCallStart { brew_uuid: u128, source_issi: u32, dest_gssi: u32, priority: u8 },
    NetworkCallReady { brew_uuid: u128, call_id: u16, ts: u8, usage: u8 },
    NetworkCallEnd { brew_uuid: u128 },
    PrivateMediaStart { call_id: u16, source_issi: u32, destination_issi: u32, ts: u8 },
    PrivateMediaStop { call_id: u16, ts: u8 },
    PrivateCallTrafficActive { call_id: u16, ts: u8 },
    UlInactivityTimeout { ts: u8 },
}

/// A traffic channel reserved for a terminal that is about to arrive.
#[derive(Debug, Clone, Copy, PartialEq, Eq, Structural)]
pub struct HandoverChannelAllocation {
    pub carrier: u16,
    pub timeslot_bitmap: u8,
    pub usage: u8,
}

/// A call message between the station and the central SwMI.
#[derive(Debug, Clone, Copy, PartialEq, Eq, Structural)]
pub enum CallMessage {
    GroupCallRequest { command_id: u64, itsi: u64, gssi: u32, priority: u8, acknowledged: bool },
    GroupCallStart {
        call_id: u64,
        owner_itsi: u64,
        gssi: u32,
        priority: u8,
        floor_itsi: u64,
        acknowledged: bool,
    },
    GroupCallPriorityChanged { call_id: u64, priority: u8 },
    HandoverReserveGroupCall {
        reservation_id: u64,
        itsi: u64,
        call_id: u64,
        owner_itsi: u64,
        gssi: u32,
        priority: u8,
        floor_itsi: u64,
        acknowledged: bool,
    },
    HandoverReservationResult {
        reservation_id: u64,
        accepted: bool,
        allocation: Option<HandoverChannelAllocation>,
    },
    FloorRequest { command_id: u64, call_id: u64, itsi: u64, tx_demand_priority: u8 },
    FloorReleaseRequest { command_id: u64, call_id: u64, itsi: u64 },
    FloorPreempted { call_id: u64, previous_itsi: u64, next_itsi: u64 },
    FloorGranted { call_id: u64, itsi: u64 },
    FloorReleased { call_id: u64 },
    CallDisconnectRequest { command_id: u64, call_id: u64, itsi: u64 },
    CallRelease { call_id: u64, cause: u8 },
    CallDisconnect { call_id: u64, cause: u8 },
    CallReject { call_id: u64, itsi: u64, cause: u8 },
    PrivateCallRequest {
        command_id: u64,
        caller_itsi: u64,
        callee_itsi: u64,
        hook: bool,
        duplex: bool,
        request_to_transmit: bool,
        priority: u8,
    },
    PrivateCallProceeding {
        call_id: u64,
        caller_itsi: u64,
        callee_itsi: u64,
        hook: bool,
        duplex: bool,
        request_to_transmit: bool,
        priority: u8,
    },
    PrivateCallOffer {
        call_id: u64,
        caller_itsi: u64,
        callee_itsi: u64,
        hook: bool,
        duplex: bool,
        request_to_transmit: bool,
        priority: u8,
    },
    PrivateCallAlert { call_id: u64, callee_itsi: u64 },
    PrivateCallConnectRequest { command_id: u64, call_id: u64, itsi: u64 },
    PrivateCallReserve {
        call_id: u64,
        caller_itsi: u64,
        callee_itsi: u64,
        endpoint_mask: u8,
        duplex: bool,
    },
    PrivateCallResourceResult { call_id: u64, endpoint_mask: u8, accepted: bool },
    PrivateCallConnected { call_id: u64, initial_floor_itsi: u64 },
    PrivateCallRestore {
        call_id: u64,
        caller_itsi: u64,
        callee_itsi: u64,
        hook: bool,
        duplex: bool,
        request_to_transmit: bool,
        priority: u8,
        initial_floor_itsi: u64,
        endpoint_mask: u8,
    },
    PrivateCallEndpointMoved { call_id: u64, itsi: u64 },
    PrivateCallRelease { call_id: u64, itsi: u64, cause: u8 },
    PrivateFloorGranted { call_id: u64, itsi: u64 },
    PrivateFloorReleased { call_id: u64, itsi: u64 },
    PrivateCallKeepalive { call_id: u64, itsi: u64 },
}

/// What call control hands on.
#[derive(Debug, Clone, Copy, PartialEq, Eq)]
pub enum CcMessage {
    Downlink(UnitdataReq),
    Control(TetraEntity, CallControl),
    Swmi(CallMessage),
}

/// The connection to the central SwMI as call control finds it.
#[derive(Debug, Clone, Copy, PartialEq, Eq, Structural)]
pub enum SwmiLink {
    /// The station has no SwMI endpoint.
    Absent,
    /// The connection is down.
    Offline,
    /// The connection is up; `accepting` tells whether the outgoing queue takes
    /// messages.
    Online { accepting: bool },
}

impl SwmiLink {
    /// Whether the connection is up.
    #[verifier::allow_in_spec]
    pub fn is_online(self) -> bool
        returns
            (match self {
                SwmiLink::Online { accepting: _ } => true,
                _ => false,
            }),
    {
        match self {
            SwmiLink::Online { accepting: _ } => true,
            _ => false,
        }
    }

    /// Whether a message that is submitted now is taken.
    #[verifier::allow_in_spec]
    pub fn takes(self) -> bool
        returns
            (match self {
                SwmiLink::Online { accepting } => accepting,
                _ => false,
            }),
    {
        match self {
            SwmiLink::Online { accepting } => accepting,
            _ => false,
        }
    }

    /// Whether the station has a SwMI endpoint.
    #[verifier::allow_in_spec]
    pub fn is_present(self) -> bool
        returns
            (match self {
                SwmiLink::Absent => false,
                _ => true,
            }),
    {
        match self {
            SwmiLink::Absent => false,
            _ => true,
        }
    }
}

/// One terminal's part in a call.
#[derive(Debug, Clone, Copy, PartialEq, Eq, Structural)]
pub struct CallParty {
    pub call_id: u16,
    pub issi: u32,
}

impl Key for CallParty {
    fn same(&self, other: &Self) -> (r: bool) {
        self.call_id == other.call_id && self.issi == other.issi
    }
}

/// One terminal's part in a group.
#[derive(Debug, Clone, Copy, PartialEq, Eq, Structural)]
pub struct Membership {
    pub issi: u32,
    pub gssi: u32,
}

impl Key for Membership {
    fn same(&self, other: &Self) -> (r: bool) {
        self.issi == other.issi && self.gssi == other.gssi
    }
}

} // verus!
