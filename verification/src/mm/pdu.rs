//! What mobility management receives and hands on.
use crate::bluestation::gateways::{DmMsRouteAddress, DmoCarrierState};
use crate::table::Key;
use vstd::prelude::*;

verus! {

/// The kind of a location update.
#[derive(Debug, Clone, Copy, PartialEq, Eq, Structural)]
pub enum LocationUpdateType {
    RoamingLocationUpdating,
    MigratingLocationUpdating,
    PeriodicLocationUpdating,
    ItsiAttach,
    ServiceRestorationRoamingLocationUpdating,
    ServiceRestorationMigratingLocationUpdating,
    DemandLocationUpdating,
    DisabledMsUpdating,
}

impl LocationUpdateType {
    /// The three-bit code on the air.
    #[verifier::allow_in_spec]
    pub fn code(self) -> u8
        returns
            (match self {
                LocationUpdateType::RoamingLocationUpdating => 0u8,
                LocationUpdateType::MigratingLocationUpdating => 1u8,
                LocationUpdateType::PeriodicLocationUpdating => 2u8,
                LocationUpdateType::ItsiAttach => 3u8,
                LocationUpdateType::ServiceRestorationRoamingLocationUpdating => 4u8,
                LocationUpdateType::ServiceRestorationMigratingLocationUpdating => 5u8,
                LocationUpdateType::DemandLocationUpdating => 6u8,
                LocationUpdateType::DisabledMsUpdating => 7u8,
            }),
    {
        match self {
            LocationUpdateType::RoamingLocationUpdating => 0,
            LocationUpdateType::MigratingLocationUpdating => 1,
            LocationUpdateType::PeriodicLocationUpdating => 2,
            LocationUpdateType::ItsiAttach => 3,
            LocationUpdateType::ServiceRestorationRoamingLocationUpdating => 4,
            LocationUpdateType::ServiceRestorationMigratingLocationUpdating => 5,
            LocationUpdateType::DemandLocationUpdating => 6,
            LocationUpdateType::DisabledMsUpdating => 7,
        }
    }
}

/// How much a terminal sleeps.
#[derive(Debug, Clone, Copy, PartialEq, Eq, Structural)]
pub enum EnergySavingMode {
    StayAlive,
    Eg1,
    Eg2,
    Eg3,
    Eg4,
    Eg5,
    Eg6,
    Eg7,
}

impl EnergySavingMode {
    /// The mode of a code, if it is one.
    #[verifier::allow_in_spec]
    pub fn from_code(code: u64) -> Option<Self>
        returns
            (match code {
                0u64 => Some(EnergySavingMode::StayAlive),
                1u64 => Some(EnergySavingMode::Eg1),
                2u64 => Some(EnergySavingMode::Eg2),
                3u64 => Some(EnergySavingMode::Eg3),
                4u64 => Some(EnergySavingMode::Eg4),
                5u64 => Some(EnergySavingMode::Eg5),
                6u64 => Some(EnergySavingMode::Eg6),
                7u64 => Some(EnergySavingMode::Eg7),
                _ => None,
            }),
    {
        match code {
            0 => Some(EnergySavingMode::StayAlive),
            1 => Some(EnergySavingMode::Eg1),
            2 => Some(EnergySavingMode::Eg2),
            3 => Some(EnergySavingMode::Eg3),
            4 => Some(EnergySavingMode::Eg4),
            5 => Some(EnergySavingMode::Eg5),
            6 => Some(EnergySavingMode::Eg6),
            7 => Some(EnergySavingMode::Eg7),
            _ => None,
        }
    }

    /// The three-bit code on the air.
    #[verifier::allow_in_spec]
    pub fn code(self) -> u8
        returns
            (match self {
                EnergySavingMode::StayAlive => 0u8,
                EnergySavingMode::Eg1 => 1u8,
                EnergySavingMode::Eg2 => 2u8,
                EnergySavingMode::Eg3 => 3u8,
                EnergySavingMode::Eg4 => 4u8,
                EnergySavingMode::Eg5 => 5u8,
                EnergySavingMode::Eg6 => 6u8,
                EnergySavingMode::Eg7 => 7u8,
            }),
    {
        match self {
            EnergySavingMode::StayAlive => 0,
            EnergySavingMode::Eg1 => 1,
            EnergySavingMode::Eg2 => 2,
            EnergySavingMode::Eg3 => 3,
            EnergySavingMode::Eg4 => 4,
            EnergySavingMode::Eg5 => 5,
            EnergySavingMode::Eg6 => 6,
            EnergySavingMode::Eg7 => 7,
        }
    }
}

/// A mode and its code determine each other.
pub proof fn law_energy_saving_code(mode: EnergySavingMode, code: u64)
    ensures
        EnergySavingMode::from_code(mode.code() as u64) == Some(mode),
        EnergySavingMode::from_code(code) is Some <==> code <= 7,
        code <= 7 ==> EnergySavingMode::from_code(code)->0.code() == code,
{
}

/// An energy economy: the mode, and the phase from which the terminal sleeps.
#[derive(Debug, Clone, Copy, PartialEq, Eq, Structural)]
pub struct EnergyEconomyAssignment {
    pub mode: EnergySavingMode,
    pub frame_number: Option<u8>,
    pub multiframe_number: Option<u8>,
}

impl EnergyEconomyAssignment {
    /// The terminal does not sleep.
    #[verifier::allow_in_spec]
    pub fn stay_alive() -> Self
        returns
            (EnergyEconomyAssignment {
                mode: EnergySavingMode::StayAlive,
                frame_number: None,
                multiframe_number: None,
            }),
    {
        EnergyEconomyAssignment {
            mode: EnergySavingMode::StayAlive,
            frame_number: None,
            multiframe_number: None,
        }
    }
}

/// A group as a terminal names it in a request.
#[derive(Debug, Clone, Copy, PartialEq, Eq, Structural)]
pub struct GroupIdentityUplink {
    pub gssi: Option<u32>,
    pub vgssi: Option<u32>,
    pub address_extension: Option<u32>,
    pub group_identity_detachment_uplink: Option<u8>,
    pub class_of_usage: Option<u8>,
}

impl GroupIdentityUplink {
    /// The class of usage; the lowest where none is named.
    #[verifier::allow_in_spec]
    pub fn class(self) -> u8
        returns
            (match self.class_of_usage {
                Some(class) => class,
                None => 0u8,
            }),
    {
        match self.class_of_usage {
            Some(class) => class,
            None => 0,
        }
    }
}

/// A group as the station names it in a response.
#[derive(Debug, Clone, Copy, PartialEq, Eq, Structural)]
pub struct GroupIdentityDownlink {
    pub gssi: u32,
    pub attachment: Option<GroupIdentityAttachment>,
    pub detachment: Option<u8>,
}

/// How a group is attached.
#[derive(Debug, Clone, Copy, PartialEq, Eq, Structural)]
pub struct GroupIdentityAttachment {
    pub lifetime: u8,
    pub class_of_usage: u8,
}

/// The attachment is to be made again after the next registration.
pub const REATTACH_AFTER_REGISTRATION: u8 = 1;

/// One change to the groups of a terminal.
#[derive(Debug, Clone, Copy, PartialEq, Eq, Structural)]
pub struct AttachmentOperation {
    pub gssi: u32,
    pub detach: bool,
    pub class_of_usage: u8,
}

/// What became of a change to the groups of a terminal.
#[derive(Debug, Clone, Copy, PartialEq, Eq, Structural)]
pub struct AttachmentResult {
    pub operation: AttachmentOperation,
    pub accepted: bool,
    pub cause: u16,
}

/// Reasons for which a location update is rejected.
pub const REJECT_MIGRATION_NOT_SUPPORTED: u8 = 12;

pub const REJECT_NETWORK_FAILURE: u8 = 5;

pub const REJECT_AUTHENTICATION_FAILURE: u8 = 19;

/// A type 3 element: its bits, at the low end of `data` up to 64 of them.
#[derive(Debug, Clone, Copy, PartialEq, Eq, Structural)]
pub struct ShortElement {
    pub len: u8,
    pub data: u64,
}

/// A type 3 element of any length: the first 64 bits in `data`, the others in
/// `raw`.
#[derive(Debug)]
pub struct Type3FieldGeneric {
    pub len: usize,
    pub data: u64,
    pub raw: Vec<u8>,
}

/// The status a terminal reports.
#[derive(Debug, Clone, Copy, PartialEq, Eq, Structural)]
pub enum StatusUplink {
    ChangeOfEnergySavingModeRequest,
    ChangeOfEnergySavingModeResponse,
    ChangeOfScanningState,
    RequestToStartDmGatewayOperation,
    RequestToContinueDmGatewayOperation,
    RequestToStopDmGatewayOperation,
    RequestToAddDmMsAddresses,
    RequestToRemoveDmMsAddresses,
    RequestToReplaceDmMsAddresses,
    AcceptanceToRemovalOfDmMsAddresses,
    AcceptanceToChangeRegistrationLabel,
    AcceptanceToStopDmGatewayOperation,
    /// A status that the station does not act on.
    Other(u8),
}

/// The status the station reports.
#[derive(Debug, Clone, Copy, PartialEq, Eq, Structural)]
pub enum StatusDownlink {
    AcceptanceToStartDmGatewayOperation,
    RejectionToStartDmGatewayOperation,
    AcceptanceToContinueDmGatewayOperation,
    RejectionToContinueDmGatewayOperation,
    AcceptanceToStopDmGatewayOperation,
    AcceptanceOfDmMsAddresses,
}

/// What goes with a gateway status of the station.
#[derive(Debug, Clone, Copy, PartialEq, Eq, Structural)]
pub enum GatewayAnswer {
    Empty,
    /// No address was rejected.
    NoRejectedAddresses,
    RetainedAddressSet(bool),
}

/// What goes with a gateway status of a terminal.
#[derive(Debug)]
pub enum GatewayPayload {
    Start { addresses: Vec<DmMsRouteAddress>, dmo_carrier: Option<DmoCarrierState> },
    Continue { dmo_carrier: Option<DmoCarrierState> },
    Addresses(Vec<DmMsRouteAddress>),
}

/// The model of a gateway payload.
pub ghost enum GatewayPayloadView {
    Start { addresses: Seq<DmMsRouteAddress>, dmo_carrier: Option<DmoCarrierState> },
    Continue { dmo_carrier: Option<DmoCarrierState> },
    Addresses(Seq<DmMsRouteAddress>),
}

impl View for GatewayPayload {
    type V = GatewayPayloadView;

    open spec fn view(&self) -> GatewayPayloadView {
        match self {
            GatewayPayload::Start { addresses, dmo_carrier } => GatewayPayloadView::Start {
                addresses: addresses@,
                dmo_carrier: *dmo_carrier,
            },
            GatewayPayload::Continue { dmo_carrier } => GatewayPayloadView::Continue {
                dmo_carrier: *dmo_carrier,
            },
            GatewayPayload::Addresses(addresses) => GatewayPayloadView::Addresses(addresses@),
        }
    }
}

/// U-MM STATUS.
#[derive(Debug)]
pub struct UMmStatus {
    pub status_uplink: StatusUplink,
    /// The dependent information, at the low end, and its length in bits.
    pub information: Option<u64>,
    pub information_len: Option<u8>,
    pub gateway_payload: Option<GatewayPayload>,
}

impl UMmStatus {
    /// The number of bits of the dependent information lets the part of it be
    /// found that the status is read for: the first three bits of an energy
    /// saving mode, the first bit of a scanning state.
    pub open spec fn is_readable(self) -> bool {
        self.information is Some && self.information_len is Some ==> match self.status_uplink {
            StatusUplink::ChangeOfEnergySavingModeRequest => self.information_len->0 <= 66,
            StatusUplink::ChangeOfEnergySavingModeResponse => self.information_len->0 <= 66,
            StatusUplink::ChangeOfScanningState => self.information_len->0 <= 64,
            _ => true,
        }
    }
}

/// The groups that go with a location update.
#[derive(Debug)]
pub struct GroupIdentityLocationDemand {
    /// All groups are detached first.
    pub replace_all: bool,
    pub group_identity_uplink: Option<Vec<GroupIdentityUplink>>,
}

/// U-LOCATION UPDATE DEMAND, as far as the station reads it.
#[derive(Debug)]
pub struct ULocationUpdateDemand {
    pub location_update_type: LocationUpdateType,
    pub request_to_append_la: bool,
    pub cipher_control: bool,
    pub has_ciphering_parameters: bool,
    pub class_of_ms: Option<u32>,
    pub energy_saving_mode: Option<EnergySavingMode>,
    pub address_extension: Option<u64>,
    pub group_identity_location_demand: Option<GroupIdentityLocationDemand>,
    pub authentication_uplink: Option<Type3FieldGeneric>,
}

/// U-ATTACH/DETACH GROUP IDENTITY, as far as the station reads it.
#[derive(Debug)]
pub struct UAttachDetachGroupIdentity {
    /// All groups are detached first.
    pub replace_all: bool,
    pub group_identity_uplink: Option<Vec<GroupIdentityUplink>>,
}

/// U-AUTHENTICATION.
#[derive(Debug, Clone, Copy, PartialEq, Eq)]
pub struct UAuthentication {
    pub response_1: Option<u32>,
    pub rand_2: Option<[u8; 10]>,
    pub mutual: bool,
    pub authentication_result: Option<bool>,
}

/// The channel that a terminal finds at its new cell.
#[derive(Debug, Clone, Copy, PartialEq, Eq, Structural)]
pub struct SeamlessHandover {
    pub carrier: u16,
    pub ts1: bool,
    pub ts2: bool,
    pub ts3: bool,
    pub ts4: bool,
    pub usage: u8,
}

/// D-LOCATION UPDATE ACCEPT, besides the groups.
#[derive(Debug, Clone, Copy, PartialEq, Eq, Structural)]
pub struct AcceptHead {
    pub location_update_type: LocationUpdateType,
    pub ssi: u32,
    pub energy_saving_information: Option<EnergyEconomyAssignment>,
    /// There is an element on groups: whether a group was rejected, and whether
    /// it lists groups.
    pub group_accept: Option<GroupAccept>,
    pub authentication_downlink: Option<ShortElement>,
    pub proprietary: Option<ShortElement>,
    pub seamless_handover: Option<SeamlessHandover>,
}

/// What a location update accept says of groups, besides the list.
#[derive(Debug, Clone, Copy, PartialEq, Eq, Structural)]
pub struct GroupAccept {
    pub rejected: bool,
    pub listed: bool,
}

/// A downlink PDU without lists.
#[derive(Debug, Clone, Copy, PartialEq, Eq)]
pub enum MmPdu {
    LocationUpdateReject {
        location_update_type: LocationUpdateType,
        reject_cause: u8,
        address_extension: Option<u64>,
    },
    LocationUpdateCommand { group_identity_report: bool },
    EnergySavingResponse { information: EnergyEconomyAssignment },
    GatewayStatus { status_downlink: StatusDownlink, answer: GatewayAnswer },
    AuthenticationDemand { rand_1: [u8; 10], random_seed: [u8; 10] },
    AuthenticationResult { success: bool, mutual: bool, response_2: Option<u32> },
    AuthenticationResponse {
        random_seed: [u8; 10],
        response_2: u32,
        mutual: bool,
        rand_1: Option<[u8; 10]>,
    },
    FunctionNotSupported { status_uplink: StatusUplink },
}

/// What happened to a subscriber.
#[derive(Debug, Clone, Copy, PartialEq, Eq, Structural)]
pub enum SubscriberUpdateAction {
    Register,
    Deregister,
    Affiliate,
    Deaffiliate,
    ScanningState,
}

/// Who is told of a subscriber.
#[derive(Debug, Clone, Copy, PartialEq, Eq, Structural)]
pub enum UpdateReceiver {
    Cmce,
    Brew,
}

/// An update on a subscriber, besides the groups.
#[derive(Debug, Clone, Copy, PartialEq, Eq, Structural)]
pub struct UpdateHead {
    pub to: UpdateReceiver,
    pub issi: u32,
    pub action: SubscriberUpdateAction,
    pub scanning_enabled: Option<bool>,
}

/// An authentication message to the SwMI.
#[derive(Debug, Clone, Copy, PartialEq, Eq)]
pub struct AuthenticationMessage {
    pub command_id: u64,
    pub itsi: u64,
    pub air_handle: u32,
    pub response_1: Option<u32>,
    pub rand_2: Option<[u8; 10]>,
    pub mutual: bool,
    pub authentication_result: Option<bool>,
}

/// A registration attempt to the SwMI, besides the target station.
#[derive(Debug, Clone, Copy, PartialEq, Eq)]
pub struct RegistrationAttemptHead {
    pub command_id: u64,
    pub itsi: u64,
    pub air_handle: u32,
    pub location_update_type: u8,
    pub address_extension: Option<u64>,
    pub energy_economy: EnergyEconomyAssignment,
    pub authentication: Option<AuthenticationMessage>,
}

/// An attachment attempt to the SwMI, besides the operations.
#[derive(Debug, Clone, Copy, PartialEq, Eq, Structural)]
pub struct AttachmentAttemptHead {
    pub command_id: u64,
    pub itsi: u64,
    pub air_handle: u32,
    pub replace_all: bool,
}

/// The state of a gateway to the SwMI, besides the addresses.
#[derive(Debug, Clone, Copy, PartialEq, Eq, Structural)]
pub struct GatewayStateHead {
    pub command_id: u64,
    pub gateway_issi: u64,
    pub active: bool,
    pub dmo_carrier: Option<DmoCarrierState>,
}

/// A subscriber as the station reports it after working alone, besides its
/// groups.
#[derive(Debug, Clone, Copy, PartialEq, Eq, Structural)]
pub struct RecoverySubscriber {
    pub itsi: u64,
    pub scanning_enabled: bool,
    pub energy_economy: EnergyEconomyAssignment,
    pub rua_assigned: Option<bool>,
}

/// A group of a subscriber that is reported.
#[derive(Debug, Clone, Copy, PartialEq, Eq, Structural)]
pub struct RecoveryGroup {
    pub itsi: u64,
    pub gssi: u32,
    pub class_of_usage: u8,
}

/// A message to the SwMI without lists.
#[derive(Debug, Clone, Copy, PartialEq, Eq)]
pub enum MmRequest {
    DeregistrationNotice { command_id: u64, itsi: u64 },
    EnergyEconomyUpdate {
        command_id: u64,
        itsi: u64,
        air_handle: u32,
        energy_economy: EnergyEconomyAssignment,
    },
    ScanningStateUpdate { command_id: u64, itsi: u64, scanning_enabled: bool },
    AuthenticationResponse(AuthenticationMessage),
    EnergyEconomyRebaseResult {
        request_id: u64,
        itsi: u64,
        energy_economy: EnergyEconomyAssignment,
    },
}

/// A message that mobility management hands on.
#[derive(Debug)]
pub enum MmMessage {
    /// To the terminal with this identity, acknowledged.
    Downlink { issi: u32, handle: u32, pdu: MmPdu },
    Accept { handle: u32, head: AcceptHead, groups: Vec<GroupIdentityDownlink> },
    Acknowledge { issi: u32, handle: u32, rejected: bool, groups: Vec<GroupIdentityDownlink> },
    Update { head: UpdateHead, groups: Vec<u32>, classes: Vec<u8> },
    Request(MmRequest),
    RegistrationAttempt { head: RegistrationAttemptHead, target: Option<String> },
    AttachmentAttempt { head: AttachmentAttemptHead, operations: Vec<AttachmentOperation> },
    GatewayState { head: GatewayStateHead, addresses: Vec<DmMsRouteAddress> },
    RecoverySnapshot {
        command_id: u64,
        subscribers: Vec<RecoverySubscriber>,
        groups: Vec<RecoveryGroup>,
    },
}

/// The model of a message.
pub ghost enum MmMessageView {
    Downlink { issi: u32, handle: u32, pdu: MmPdu },
    Accept { handle: u32, head: AcceptHead, groups: Seq<GroupIdentityDownlink> },
    Acknowledge { issi: u32, handle: u32, rejected: bool, groups: Seq<GroupIdentityDownlink> },
    Update { head: UpdateHead, groups: Seq<u32>, classes: Seq<u8> },
    Request(MmRequest),
    RegistrationAttempt { head: RegistrationAttemptHead, target: Option<String> },
    AttachmentAttempt { head: AttachmentAttemptHead, operations: Seq<AttachmentOperation> },
    GatewayState { head: GatewayStateHead, addresses: Seq<DmMsRouteAddress> },
    RecoverySnapshot {
        command_id: u64,
        subscribers: Seq<RecoverySubscriber>,
        groups: Seq<RecoveryGroup>,
    },
}

impl View for MmMessage {
    type V = MmMessageView;

    open spec fn view(&self) -> MmMessageView {
        match self {
            MmMessage::Downlink { issi, handle, pdu } => MmMessageView::Downlink {
                issi: *issi,
                handle: *handle,
                pdu: *pdu,
            },
            MmMessage::Accept { handle, head, groups } => MmMessageView::Accept {
                handle: *handle,
                head: *head,
                groups: groups@,
            },
            MmMessage::Acknowledge { issi, handle, rejected, groups } =>
                MmMessageView::Acknowledge {
                    issi: *issi,
                    handle: *handle,
                    rejected: *rejected,
                    groups: groups@,
                },
            MmMessage::Update { head, groups, classes } => MmMessageView::Update {
                head: *head,
                groups: groups@,
                classes: classes@,
            },
            MmMessage::Request(request) => MmMessageView::Request(*request),
            MmMessage::RegistrationAttempt { head, target } => MmMessageView::RegistrationAttempt {
                head: *head,
                target: *target,
            },
            MmMessage::AttachmentAttempt { head, operations } => MmMessageView::AttachmentAttempt {
                head: *head,
                operations: operations@,
            },
            MmMessage::GatewayState { head, addresses } => MmMessageView::GatewayState {
                head: *head,
                addresses: addresses@,
            },
            MmMessage::RecoverySnapshot { command_id, subscribers, groups } =>
                MmMessageView::RecoverySnapshot {
                    command_id: *command_id,
                    subscribers: subscribers@,
                    groups: groups@,
                },
        }
    }
}

/// The models of a queue of messages.
pub open spec fn message_views(queue: Seq<MmMessage>) -> Seq<MmMessageView> {
    queue.map_values(|message: MmMessage| message@)
}

/// A subscriber whose recovery the SwMI accepted.
#[derive(Debug)]
pub struct RecoveryAccepted {
    pub itsi: u64,
    pub groups: Vec<AttachmentOperation>,
    pub scanning_enabled: bool,
    pub energy_economy: EnergyEconomyAssignment,
    pub rua_assigned: Option<bool>,
}

/// The model of an accepted recovery.
#[verifier::ext_equal]
pub ghost struct RecoveryAcceptedView {
    pub itsi: u64,
    pub groups: Seq<AttachmentOperation>,
    pub scanning_enabled: bool,
    pub energy_economy: EnergyEconomyAssignment,
    pub rua_assigned: Option<bool>,
}

impl View for RecoveryAccepted {
    type V = RecoveryAcceptedView;

    open spec fn view(&self) -> RecoveryAcceptedView {
        RecoveryAcceptedView {
            itsi: self.itsi,
            groups: self.groups@,
            scanning_enabled: self.scanning_enabled,
            energy_economy: self.energy_economy,
            rua_assigned: self.rua_assigned,
        }
    }
}

/// A key for the authentication of a terminal on an air-interface handle.
/// Handles are reused for concurrent registrations, so that a handle alone is
/// no key.
#[derive(Debug, Clone, Copy, PartialEq, Eq, Structural)]
pub struct AuthenticationKey {
    pub issi: u32,
    pub air_handle: u32,
}

impl Key for AuthenticationKey {
    fn same(&self, other: &Self) -> (r: bool) {
        *self == *other
    }
}

/// A decision on a registration.
#[derive(Debug, Clone, Copy, PartialEq, Eq, Structural)]
pub struct RegistrationDecision {
    pub command_id: u64,
    pub itsi: u64,
    pub air_handle: u32,
    pub accepted: bool,
    pub cause: u16,
    pub energy_economy: EnergyEconomyAssignment,
    pub rua_requested: bool,
    pub handover_allocation: Option<crate::cmce::pdu::HandoverChannelAllocation>,
}

/// A message from the SwMI for mobility management.
#[derive(Debug)]
pub enum MmSwmiMessage {
    RegistrationDecision(RegistrationDecision),
    AuthenticationChallenge {
        command_id: u64,
        itsi: u64,
        air_handle: u32,
        rand_1: [u8; 10],
        random_seed: [u8; 10],
    },
    AuthenticationResult {
        command_id: u64,
        itsi: u64,
        air_handle: u32,
        success: bool,
        response_2: Option<u32>,
    },
    AuthenticationResponseDemand {
        command_id: u64,
        itsi: u64,
        air_handle: u32,
        random_seed: [u8; 10],
        response_2: u32,
        mutual: bool,
        rand_1: Option<[u8; 10]>,
    },
    AttachmentDecision {
        command_id: u64,
        itsi: u64,
        air_handle: u32,
        has_rejection: bool,
        results: Vec<AttachmentResult>,
    },
    SubscriberStateSync {
        itsi: u64,
        groups: Vec<AttachmentOperation>,
        scanning_enabled: bool,
        energy_economy: EnergyEconomyAssignment,
    },
    LstRecoveryRequest { command_id: u64 },
    LstRecoveryResult { command_id: u64, accepted: Vec<RecoveryAccepted>, rejected: Vec<u64> },
    DeregistrationNotice { command_id: u64, itsi: u64 },
    EnergyEconomyDecision {
        command_id: u64,
        itsi: u64,
        air_handle: u32,
        accepted: bool,
        energy_economy: EnergyEconomyAssignment,
    },
    EnergyEconomyRebaseRequest { request_id: u64, itsi: u64, mode: u8 },
}

} // verus!
